//! The qubits of the architecture as quilc reads them: each with the gates it supports.
use super::models::{Characteristic, Node, Operation};
use super::operator::{
    argument_views, operator_views, parameter_views, wildcard, wildcard_view, Argument,
    ArgumentView, Operator, OperatorView, Parameter, ParameterView, PERFECT_DURATION,
    PERFECT_FIDELITY,
};
use crate::text::str_eq;
use vstd::prelude::*;

verus! {

/// The bits of the duration of an `RX` gate, `50.0`.
pub const DEFAULT_DURATION_RX: u64 = 0x4049_0000_0000_0000;

/// The bits of the duration of a measurement, `2000.0`.
pub const MEASURE_DEFAULT_DURATION: u64 = 0x409f_4000_0000_0000;

/// The bits of the fidelity of a measurement that has no `fRO` characteristic, `0.90`.
pub const MEASURE_DEFAULT_FIDELITY: u64 = 0x3fec_cccc_cccc_cccd;

/// The bits of the angle π.
pub const ANGLE_PI: u64 = 0x4009_21fb_5444_2d18;

/// The bits of the angle -π.
pub const ANGLE_MINUS_PI: u64 = 0xc009_21fb_5444_2d18;

/// The bits of the angle π/2.
pub const ANGLE_HALF_PI: u64 = 0x3ff9_21fb_5444_2d18;

/// The bits of the angle -π/2.
pub const ANGLE_MINUS_HALF_PI: u64 = 0xbff9_21fb_5444_2d18;

/// All the errors that can occur within this module.
#[derive(Debug, PartialEq, Eq)]
pub enum Error {
    /// Required benchmark `randomized_benchmark_simultaneous_1q` was not present
    MissingBenchmark,
    /// Benchmark `randomized_benchmark_simultaneous_1q` must have a single call site
    InvalidBenchmark,
    /// Benchmark missing for a qubit
    MissingBenchmarkForQubit(i32),
    /// Unknown operator
    UnknownOperator(String),
}

/// Whether a flag is false: a qubit or edge is written without `dead` unless it is dead.
pub fn is_false(val: &bool) -> (unset: bool)
    ensures
        unset == !*val,
{
    !*val
}

/// Represents a single Qubit on a QPU and its capabilities. Needed by quilc for optimization.
#[derive(Debug, PartialEq, Eq)]
pub struct Qubit {
    id: i32,
    dead: bool,
    gates: Vec<Operator>,
}

impl Qubit {
    /// The qubit's index.
    pub closed spec fn spec_id(&self) -> i32 {
        self.id
    }

    /// Whether the qubit is dead: no operation is defined on it.
    pub closed spec fn spec_dead(&self) -> bool {
        self.dead
    }

    /// The gates the qubit supports, in the order they were added.
    pub closed spec fn spec_gates(&self) -> Seq<OperatorView> {
        operator_views(self.gates@)
    }

    /// The qubit's index.
    pub fn id(&self) -> (id: i32)
        ensures
            id == self.spec_id(),
    {
        self.id
    }

    /// Whether the qubit is dead.
    pub fn dead(&self) -> (dead: bool)
        ensures
            dead == self.spec_dead(),
    {
        self.dead
    }

    /// The gates the qubit supports.
    pub fn gates(&self) -> (gates: &Vec<Operator>)
        ensures
            operator_views(gates@) == self.spec_gates(),
    {
        &self.gates
    }

    /// A qubit with no operations yet: dead, with no gates.
    pub fn from_node(node: &Node) -> (qubit: Qubit)
        ensures
            qubit.spec_id() == node.node_id,
            qubit.spec_dead(),
            qubit.spec_gates() == Seq::<OperatorView>::empty(),
    {
        let qubit = Qubit { id: node.node_id, dead: true, gates: Vec::new() };
        assert(operator_views(qubit.gates@) =~= Seq::<OperatorView>::empty());
        qubit
    }
}

/// The mathematical value of a [`Qubit`].
pub struct QubitView {
    /// The qubit's index.
    pub id: i32,
    /// Whether it is dead.
    pub dead: bool,
    /// The gates it supports.
    pub gates: Seq<OperatorView>,
}

impl View for Qubit {
    type V = QubitView;

    open spec fn view(&self) -> QubitView {
        QubitView { id: self.spec_id(), dead: self.spec_dead(), gates: self.spec_gates() }
    }
}

/// The characteristics of the single-qubit randomized benchmark.
#[derive(Debug, PartialEq, Eq)]
pub struct FrbSim1q(Vec<Characteristic>);

/// The first operation of a name in a list.
pub open spec fn first_named(operations: Seq<Operation>, name: Seq<char>) -> Option<Operation>
    decreases operations.len(),
{
    if operations.len() == 0 {
        None
    } else if operations[0].name@ == name {
        Some(operations[0])
    } else {
        first_named(operations.drop_first(), name)
    }
}

/// The name of the benchmark whose results give the fidelity of `RX` gates, and without which
/// a qubit has neither `RX` nor `RZ` gates.
pub open spec fn benchmark_name() -> Seq<char> {
    "randomized_benchmark_simultaneous_1q"@
}

/// Whether a characteristic was measured on exactly one qubit, this one.
pub open spec fn measured_on(characteristic: Characteristic, qubit: i32) -> bool {
    characteristic.node_ids matches Some(ids) && ids@.len() == 1 && ids@[0] == qubit
}

/// The value of the first characteristic measured on exactly one qubit, this one.
pub open spec fn benchmark_fidelity(characteristics: Seq<Characteristic>, qubit: i32) -> Option<
    u64,
>
    decreases characteristics.len(),
{
    if characteristics.len() == 0 {
        None
    } else if measured_on(characteristics[0], qubit) {
        Some(characteristics[0].value)
    } else {
        benchmark_fidelity(characteristics.drop_first(), qubit)
    }
}

impl FrbSim1q {
    /// The characteristics of the benchmark.
    pub closed spec fn spec_characteristics(&self) -> Seq<Characteristic> {
        self.0@
    }

    /// Takes the benchmark's characteristics from the benchmarks of the architecture: the first
    /// benchmark named `randomized_benchmark_simultaneous_1q`, which must have a single site.
    pub fn try_from(operations: Vec<Operation>) -> (benchmark: Result<FrbSim1q, Error>)
        ensures
            match first_named(operations@, benchmark_name()) {
                None => benchmark == Err::<FrbSim1q, Error>(Error::MissingBenchmark),
                Some(operation) => if operation.sites@.len() != 1 {
                    benchmark == Err::<FrbSim1q, Error>(Error::InvalidBenchmark)
                } else {
                    benchmark is Ok && benchmark->Ok_0.spec_characteristics()
                        == operation.sites@[0].characteristics@
                },
            },
    {
        let ghost all = operations@;
        let mut ops = operations;
        let mut k: usize = 0;
        let bench_name: String = "randomized_benchmark_simultaneous_1q".to_owned();
        assert(all.subrange(0, all.len() as int) =~= all);
        while k < ops.len()
            invariant
                ops@ == all,
                all == operations@,
                k <= all.len(),
                bench_name@ == benchmark_name(),
                first_named(all, benchmark_name()) == first_named(
                    all.subrange(k as int, all.len() as int),
                    benchmark_name(),
                ),
            decreases all.len() - k,
        {
            let ghost rest = all.subrange(k as int, all.len() as int);
            assert(rest.drop_first() =~= all.subrange(k as int + 1, all.len() as int));
            if ops[k].name.eq(&bench_name) {
                assert(rest[0] == all[k as int]);
                assert(first_named(all, benchmark_name()) == Some(all[k as int]));
                let mut operation = ops.remove(k);
                assert(operation == all[k as int]);
                if operation.sites.len() != 1 {
                    return Err(Error::InvalidBenchmark);
                }
                let site = operation.sites.remove(0);
                return Ok(FrbSim1q(site.characteristics));
            }
            k = k + 1;
        }
        Err(Error::MissingBenchmark)
    }

    /// The fidelity that the benchmark gives a qubit: the value of its first characteristic
    /// measured on exactly that qubit.
    pub fn fidelity_for_qubit(&self, qubit: i32) -> (fidelity: Result<u64, Error>)
        ensures
            match benchmark_fidelity(self.spec_characteristics(), qubit) {
                Some(value) => fidelity == Ok::<u64, Error>(value),
                None => fidelity == Err::<u64, Error>(Error::MissingBenchmarkForQubit(qubit)),
            },
    {
        let ghost all = self.0@;
        let mut j: usize = 0;
        assert(all.subrange(0, all.len() as int) =~= all);
        while j < self.0.len()
            invariant
                all == self.0@,
                j <= all.len(),
                benchmark_fidelity(all, qubit) == benchmark_fidelity(
                    all.subrange(j as int, all.len() as int),
                    qubit,
                ),
            decreases all.len() - j,
        {
            let ghost rest = all.subrange(j as int, all.len() as int);
            assert(rest.drop_first() =~= all.subrange(j as int + 1, all.len() as int));
            let characteristic = &self.0[j];
            let single = match &characteristic.node_ids {
                Some(ids) => ids.len() == 1 && ids[0] == qubit,
                None => false,
            };
            if single {
                return Ok(characteristic.value);
            }
            j = j + 1;
        }
        Err(Error::MissingBenchmarkForQubit(qubit))
    }
}

/// An `RX` gate on a qubit by one angle.
pub open spec fn rx_gate(node_id: i32, angle: u64, fidelity: u64) -> OperatorView {
    OperatorView::Gate {
        operator: "RX"@,
        parameters: seq![ParameterView::Float(angle)],
        arguments: seq![ArgumentView::Int(node_id)],
        fidelity,
        duration: DEFAULT_DURATION_RX,
    }
}

/// The `RX` gates of a qubit: by 0 with perfect fidelity, and by π, -π, π/2 and -π/2 with the
/// benchmarked fidelity.
pub open spec fn rx_gates_view(node_id: i32, fidelity: u64) -> Seq<OperatorView> {
    seq![
        rx_gate(node_id, 0, PERFECT_FIDELITY),
        rx_gate(node_id, ANGLE_PI, fidelity),
        rx_gate(node_id, ANGLE_MINUS_PI, fidelity),
        rx_gate(node_id, ANGLE_HALF_PI, fidelity),
        rx_gate(node_id, ANGLE_MINUS_HALF_PI, fidelity),
    ]
}

fn make_rx_gate(node_id: i32, angle: u64, fidelity: u64) -> (gate: Operator)
    ensures
        gate@ == rx_gate(node_id, angle, fidelity),
{
    let parameters = vec![Parameter::Float(angle)];
    let arguments = vec![Argument::Int(node_id)];
    assert(parameter_views(parameters@) =~= seq![ParameterView::Float(angle)]);
    assert(argument_views(arguments@) =~= seq![ArgumentView::Int(node_id)]);
    Operator::Gate {
        operator: "RX".to_owned(),
        parameters,
        arguments,
        fidelity,
        duration: DEFAULT_DURATION_RX,
    }
}

/// The `RX` gates of a qubit, with the fidelity that the benchmark gives it.
pub fn rx_gates(node_id: i32, frb_sim_1q: &FrbSim1q) -> (gates: Result<Vec<Operator>, Error>)
    ensures
        match benchmark_fidelity(frb_sim_1q.spec_characteristics(), node_id) {
            Some(fidelity) => gates is Ok && operator_views(gates->Ok_0@) == rx_gates_view(
                node_id,
                fidelity,
            ),
            None => gates matches Err(Error::MissingBenchmarkForQubit(qubit)) && qubit == node_id,
        },
{
    let fidelity = frb_sim_1q.fidelity_for_qubit(node_id)?;
    let mut gates: Vec<Operator> = Vec::new();
    gates.push(make_rx_gate(node_id, 0, PERFECT_FIDELITY));
    gates.push(make_rx_gate(node_id, ANGLE_PI, fidelity));
    gates.push(make_rx_gate(node_id, ANGLE_MINUS_PI, fidelity));
    gates.push(make_rx_gate(node_id, ANGLE_HALF_PI, fidelity));
    gates.push(make_rx_gate(node_id, ANGLE_MINUS_HALF_PI, fidelity));
    assert(operator_views(gates@) =~= rx_gates_view(node_id, fidelity));
    Ok(gates)
}

/// The `RZ` gate of a qubit: any angle, perfect fidelity, no duration worth counting.
pub open spec fn rz_gates_view(node_id: i32) -> Seq<OperatorView> {
    seq![
        OperatorView::Gate {
            operator: "RZ"@,
            parameters: seq![ParameterView::String("_"@)],
            arguments: seq![ArgumentView::Int(node_id)],
            fidelity: PERFECT_FIDELITY,
            duration: PERFECT_DURATION,
        },
    ]
}

/// The `RZ` gates of a qubit.
pub fn rz_gates(node_id: i32) -> (gates: Vec<Operator>)
    ensures
        operator_views(gates@) == rz_gates_view(node_id),
{
    let parameters = vec![Parameter::String("_".to_owned())];
    let arguments = vec![Argument::Int(node_id)];
    assert(parameter_views(parameters@) =~= seq![ParameterView::String("_"@)]);
    assert(argument_views(arguments@) =~= seq![ArgumentView::Int(node_id)]);
    let gates = vec![
        Operator::Gate {
            operator: "RZ".to_owned(),
            parameters,
            arguments,
            fidelity: PERFECT_FIDELITY,
            duration: PERFECT_DURATION,
        },
    ];
    assert(operator_views(gates@) =~= rz_gates_view(node_id));
    gates
}

/// The fidelity of measuring at a site: the value of its first `fRO` characteristic, or the
/// default where it has none.
pub open spec fn readout_fidelity(characteristics: Seq<Characteristic>) -> u64
    decreases characteristics.len(),
{
    if characteristics.len() == 0 {
        MEASURE_DEFAULT_FIDELITY
    } else if characteristics[0].name@ == "fRO"@ {
        characteristics[0].value
    } else {
        readout_fidelity(characteristics.drop_first())
    }
}

/// The measurements of a qubit: into any memory, and into none.
pub open spec fn measure_view(node_id: i32, fidelity: u64) -> Seq<OperatorView> {
    seq![
        OperatorView::Measure {
            operator: "MEASURE"@,
            duration: MEASURE_DEFAULT_DURATION,
            fidelity,
            qubit: node_id,
            target: Some("_"@),
        },
        OperatorView::Measure {
            operator: "MEASURE"@,
            duration: MEASURE_DEFAULT_DURATION,
            fidelity,
            qubit: node_id,
            target: None,
        },
    ]
}

fn find_readout_fidelity(characteristics: &[Characteristic]) -> (fidelity: u64)
    ensures
        fidelity == readout_fidelity(characteristics@),
{
    let ghost all = characteristics@;
    let readout_name: String = "fRO".to_owned();
    let mut j: usize = 0;
    assert(all.subrange(0, all.len() as int) =~= all);
    while j < characteristics.len()
        invariant
            all == characteristics@,
            j <= all.len(),
            readout_name@ == "fRO"@,
            readout_fidelity(all) == readout_fidelity(all.subrange(j as int, all.len() as int)),
        decreases all.len() - j,
    {
        let ghost rest = all.subrange(j as int, all.len() as int);
        assert(rest.drop_first() =~= all.subrange(j as int + 1, all.len() as int));
        if characteristics[j].name.eq(&readout_name) {
            return characteristics[j].value;
        }
        j = j + 1;
    }
    MEASURE_DEFAULT_FIDELITY
}

/// Process a "MEASURE" operation.
pub fn measure(node_id: i32, characteristics: &[Characteristic]) -> (gates: Vec<Operator>)
    ensures
        operator_views(gates@) == measure_view(node_id, readout_fidelity(characteristics@)),
{
    let fidelity = find_readout_fidelity(characteristics);
    let gates = vec![
        Operator::Measure {
            operator: "MEASURE".to_owned(),
            duration: MEASURE_DEFAULT_DURATION,
            fidelity,
            qubit: node_id,
            target: Some("_".to_owned()),
        },
        Operator::Measure {
            operator: "MEASURE".to_owned(),
            duration: MEASURE_DEFAULT_DURATION,
            fidelity,
            qubit: node_id,
            target: None,
        },
    ];
    assert(operator_views(gates@) =~= measure_view(node_id, fidelity));
    gates
}

/// The gates that an operation adds to a qubit, or `None` where it gives an error: an `RX` or
/// `RZ` whose qubit has no benchmark, or an operation that qubits do not support.
pub open spec fn operation_gates(
    node_id: i32,
    op_name: Seq<char>,
    characteristics: Seq<Characteristic>,
    benchmark: Seq<Characteristic>,
) -> Option<Seq<OperatorView>> {
    if op_name == "RX"@ {
        match benchmark_fidelity(benchmark, node_id) {
            Some(fidelity) => Some(rx_gates_view(node_id, fidelity)),
            None => None,
        }
    } else if op_name == "RZ"@ {
        match benchmark_fidelity(benchmark, node_id) {
            Some(_) => Some(rz_gates_view(node_id)),
            None => None,
        }
    } else if op_name == "MEASURE"@ {
        Some(measure_view(node_id, readout_fidelity(characteristics)))
    } else if op_name == "WILDCARD"@ {
        Some(seq![wildcard_view(Some(node_id))])
    } else if op_name == "I"@ || op_name == "RESET"@ {
        Some(Seq::empty())
    } else {
        None
    }
}

/// Whether an error is the one that adding an operation to a qubit gives where it fails.
pub open spec fn is_operation_error(node_id: i32, op_name: Seq<char>, error: Error) -> bool {
    if op_name == "RX"@ || op_name == "RZ"@ {
        error == Error::MissingBenchmarkForQubit(node_id)
    } else {
        error matches Error::UnknownOperator(name) && name@ == op_name
    }
}

impl Qubit {
    /// Add an operation to a particular Qubit.
    ///
    /// In the QCS ISA, the definition of Qubits is separate from the definition of which
    /// operations those Qubits can perform and what stats (fidelity, timing, etc.) they have.
    /// Those operations are defined later, and must be added to the defined Qubits via this
    /// function. The gates it adds follow those the qubit has, and the qubit is no longer dead;
    /// where it fails, the qubit is unchanged.
    pub fn add_operation(
        &mut self,
        op_name: &str,
        characteristics: &[Characteristic],
        frb_sim_1q: &FrbSim1q,
    ) -> (added: Result<(), Error>)
        ensures
            match operation_gates(
                old(self).spec_id(),
                op_name@,
                characteristics@,
                frb_sim_1q.spec_characteristics(),
            ) {
                Some(gates) => added is Ok && final(self).spec_id() == old(self).spec_id()
                    && !final(self).spec_dead() && final(self).spec_gates() == old(
                    self,
                ).spec_gates() + gates,
                None => added is Err && *final(self) == *old(self) && is_operation_error(
                    old(self).spec_id(),
                    op_name@,
                    added->Err_0,
                ),
            },
    {
        let mut operators: Vec<Operator> = if str_eq(op_name, "RX") {
            rx_gates(self.id, frb_sim_1q)?
        } else if str_eq(op_name, "RZ") {
            frb_sim_1q.fidelity_for_qubit(self.id)?;
            rz_gates(self.id)
        } else if str_eq(op_name, "MEASURE") {
            measure(self.id, characteristics)
        } else if str_eq(op_name, "WILDCARD") {
            let gate = wildcard(Some(self.id));
            let gates = vec![gate];
            assert(operator_views(gates@) =~= seq![wildcard_view(Some(self.id))]);
            gates
        } else if str_eq(op_name, "I") || str_eq(op_name, "RESET") {
            let gates: Vec<Operator> = Vec::new();
            assert(operator_views(gates@) =~= Seq::<OperatorView>::empty());
            gates
        } else {
            return Err(Error::UnknownOperator(op_name.to_owned()));
        };
        let ghost before = self.gates@;
        let ghost adding = operators@;
        self.gates.append(&mut operators);
        assert(operator_views(self.gates@) =~= operator_views(before) + operator_views(adding));
        self.dead = false;
        Ok(())
    }
}

/// The distinct node IDs of a list of nodes, in the order they first appear.
pub open spec fn distinct_node_ids(nodes: Seq<Node>) -> Seq<i32>
    decreases nodes.len(),
{
    if nodes.len() == 0 {
        Seq::empty()
    } else {
        let earlier = distinct_node_ids(nodes.drop_last());
        if earlier.contains(nodes.last().node_id) {
            earlier
        } else {
            earlier.push(nodes.last().node_id)
        }
    }
}

fn has_qubit(qubits: &Vec<Qubit>, id: i32) -> (found: bool)
    ensures
        found == exists|i: int| 0 <= i < qubits@.len() && #[trigger] qubits@[i].spec_id() == id,
{
    let mut i: usize = 0;
    while i < qubits.len()
        invariant
            i <= qubits@.len(),
            forall|j: int| 0 <= j < i ==> #[trigger] qubits@[j].spec_id() != id,
        decreases qubits@.len() - i,
    {
        if qubits[i].id() == id {
            return true;
        }
        i = i + 1;
    }
    false
}

impl Qubit {
    /// A fresh qubit for each distinct node, in the order the nodes first appear.
    pub fn from_nodes(nodes: &[Node]) -> (qubits: Vec<Qubit>)
        ensures
            qubits@.len() == distinct_node_ids(nodes@).len(),
            forall|i: int|
                0 <= i < qubits@.len() ==> (#[trigger] qubits@[i]).spec_id()
                    == distinct_node_ids(nodes@)[i] && qubits@[i].spec_dead()
                    && qubits@[i].spec_gates() == Seq::<OperatorView>::empty(),
    {
        let mut qubits: Vec<Qubit> = Vec::new();
        let mut k: usize = 0;
        while k < nodes.len()
            invariant
                k <= nodes@.len(),
                qubits@.len() == distinct_node_ids(nodes@.subrange(0, k as int)).len(),
                forall|i: int|
                    0 <= i < qubits@.len() ==> (#[trigger] qubits@[i]).spec_id()
                        == distinct_node_ids(nodes@.subrange(0, k as int))[i]
                        && qubits@[i].spec_dead() && qubits@[i].spec_gates()
                        == Seq::<OperatorView>::empty(),
            decreases nodes@.len() - k,
        {
            let ghost earlier = distinct_node_ids(nodes@.subrange(0, k as int));
            assert(nodes@.subrange(0, k as int + 1).drop_last() =~= nodes@.subrange(0, k as int));
            let node = &nodes[k];
            let known = has_qubit(&qubits, node.node_id);
            if known {
                let ghost i = choose|i: int| 0 <= i < qubits@.len() && #[trigger] qubits@[i].spec_id() == node.node_id;
                assert(earlier[i] == node.node_id);
                assert(earlier.contains(node.node_id));
            } else {
                assert(!earlier.contains(node.node_id)) by {
                    if earlier.contains(node.node_id) {
                        let i = choose|i: int| 0 <= i < earlier.len() && earlier[i] == node.node_id;
                        assert(qubits@[i].spec_id() == node.node_id);
                    }
                }
                qubits.push(Qubit::from_node(node));
            }
            k = k + 1;
        }
        assert(nodes@.subrange(0, nodes@.len() as int) =~= nodes@);
        qubits
    }
}

proof fn lemma_qubit_operation_names_differ()
    ensures
        "RX"@ != "RZ"@,
        "I"@ != "RX"@ && "I"@ != "RZ"@ && "I"@ != "MEASURE"@ && "I"@ != "WILDCARD"@,
        "RESET"@ != "RX"@ && "RESET"@ != "RZ"@ && "RESET"@ != "MEASURE"@ && "RESET"@
            != "WILDCARD"@,
{
    reveal_strlit("RX");
    reveal_strlit("RZ");
    reveal_strlit("I");
    reveal_strlit("RESET");
    reveal_strlit("MEASURE");
    reveal_strlit("WILDCARD");
    assert("RX"@[1] != "RZ"@[1]);
    assert("I"@.len() == 1 && "RX"@.len() == 2 && "RZ"@.len() == 2 && "RESET"@.len() == 5);
    assert("MEASURE"@.len() == 7 && "WILDCARD"@.len() == 8);
}

/// `I` and `RESET` are operations of every qubit that need no gate: adding either succeeds,
/// whatever the qubit, its characteristics and the benchmark, and adds no gate.
pub proof fn lemma_identity_and_reset_add_no_gate(
    node_id: i32,
    op_name: Seq<char>,
    characteristics: Seq<Characteristic>,
    benchmark: Seq<Characteristic>,
)
    requires
        op_name == "I"@ || op_name == "RESET"@,
    ensures
        operation_gates(node_id, op_name, characteristics, benchmark) == Some(
            Seq::<OperatorView>::empty(),
        ),
{
    lemma_qubit_operation_names_differ();
}

/// Adding an operation to a qubit fails exactly for a name other than `RX`, `RZ`, `MEASURE`,
/// `WILDCARD`, `I` and `RESET`, and for `RX` and `RZ` where the benchmark has no fidelity for
/// the qubit.
pub proof fn lemma_qubit_operation_fails(
    node_id: i32,
    op_name: Seq<char>,
    characteristics: Seq<Characteristic>,
    benchmark: Seq<Characteristic>,
)
    ensures
        operation_gates(node_id, op_name, characteristics, benchmark) is None <==> (!(op_name
            == "RX"@ || op_name == "RZ"@ || op_name == "MEASURE"@ || op_name == "WILDCARD"@
            || op_name == "I"@ || op_name == "RESET"@) || ((op_name == "RX"@ || op_name == "RZ"@)
            && benchmark_fidelity(benchmark, node_id) is None)),
{
    lemma_qubit_operation_names_differ();
}

} // verus!
