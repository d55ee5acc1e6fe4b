//! The instruction set architecture of a QPU, restructured for quilc: its qubits and edges,
//! each with the gates that the operations defined on it give.
pub mod edge;
pub mod models;
pub mod operator;
pub mod qubit;

use edge::{convert_edges, edge_gate, edge_ids, first_bad_edge, id_pair, Edge, EdgeId, EdgeView};
use models::{Characteristic, InstructionSetArchitecture, Operation, OperationSite};
use operator::OperatorView;
use qubit::{
    benchmark_name, distinct_node_ids, first_named, is_operation_error, operation_gates,
    FrbSim1q, Qubit, QubitView,
};
use vstd::prelude::*;

verus! {

/// All the errors that can occur from within this module
#[derive(Debug)]
pub enum Error {
    /// An operation is defined for a qubit that does not exist.
    QubitDoesNotExist(String, i32),
    /// An operation is defined for an edge that does not exist.
    EdgeDoesNotExist(String, EdgeId),
    /// The number of nodes for an operation and its site must be (1, 1) or (2, 2); this gives
    /// the two numbers, the operation's name and the site's nodes.
    IncorrectNodes((Option<i32>, usize), String, Vec<i32>),
    /// An error from the qubits.
    Qubit(qubit::Error),
    /// An error from the edges.
    Edge(edge::Error),
}

/// Restructuring of an [`InstructionSetArchitecture`] for sending to quilc
#[derive(Debug)]
pub struct Compiler {
    qubits: Vec<Qubit>,
    edges: Vec<Edge>,
}

/// The qubits and edges of an architecture as quilc will read them.
pub struct IsaState {
    /// The qubits, in the order their nodes first appear.
    pub qubits: Seq<QubitView>,
    /// The edges, in the order their identifiers first appear.
    pub edges: Seq<EdgeView>,
}

/// Why the operations of an architecture cannot be given to quilc.
pub enum IsaFailure {
    /// An operation, by name, is defined on a qubit that does not exist.
    QubitDoesNotExist(Seq<char>, i32),
    /// An operation, by name, is defined on an edge that does not exist.
    EdgeDoesNotExist(Seq<char>, (i32, i32)),
    /// An operation's node count and its site's nodes, and the operation's name, do not agree.
    IncorrectNodes(Option<i32>, nat, Seq<i32>, Seq<char>),
    /// An operation, by name, cannot be added to a qubit.
    QubitOperation(i32, Seq<char>),
    /// An operation, by name, is not one that edges support.
    EdgeOperation(Seq<char>),
}

/// Whether an error reports a failure.
pub open spec fn is_failure(error: Error, failure: IsaFailure) -> bool {
    match failure {
        IsaFailure::QubitDoesNotExist(name, id) => error matches Error::QubitDoesNotExist(n, i)
            && n@ == name && i == id,
        IsaFailure::EdgeDoesNotExist(name, pair) => error matches Error::EdgeDoesNotExist(n, e)
            && n@ == name && id_pair(e) == pair,
        IsaFailure::IncorrectNodes(count, len, nodes, name) => error matches Error::IncorrectNodes(
            shape,
            n,
            ids,
        ) && shape.0 == count && shape.1 == len && ids@ == nodes && n@ == name,
        IsaFailure::QubitOperation(id, name) => error matches Error::Qubit(e)
            && is_operation_error(id, name, e),
        IsaFailure::EdgeOperation(name) => error matches Error::Edge(
            edge::Error::UnknownOperator(n),
        ) && n@ == name,
    }
}

/// Whether `i` is the first position of a qubit in a list.
pub open spec fn is_qubit_position(qubits: Seq<QubitView>, id: i32, i: int) -> bool {
    &&& 0 <= i < qubits.len()
    &&& qubits[i].id == id
    &&& forall|k: int| 0 <= k < i ==> #[trigger] qubits[k].id != id
}

/// Whether `j` is the first position of an edge in a list.
pub open spec fn is_edge_position(edges: Seq<EdgeView>, id: (i32, i32), j: int) -> bool {
    &&& 0 <= j < edges.len()
    &&& edges[j].id == id
    &&& forall|k: int| 0 <= k < j ==> #[trigger] edges[k].id != id
}

/// The identifier of the edge between two nodes: the smaller first.
pub open spec fn sorted_pair(nodes: Seq<i32>) -> (i32, i32) {
    if nodes[0] <= nodes[1] {
        (nodes[0], nodes[1])
    } else {
        (nodes[1], nodes[0])
    }
}

/// Adds an operation at one site: to its qubit where the operation and the site are for one
/// node, to its edge where they are for two.
pub open spec fn apply_site(
    state: IsaState,
    name: Seq<char>,
    node_count: Option<i32>,
    site: OperationSite,
    benchmark: Seq<Characteristic>,
) -> Result<IsaState, IsaFailure> {
    let nodes = site.node_ids@;
    if node_count == Some(1i32) && nodes.len() == 1 {
        let id = nodes[0];
        if exists|i: int| is_qubit_position(state.qubits, id, i) {
            let i = choose|i: int| is_qubit_position(state.qubits, id, i);
            match operation_gates(id, name, site.characteristics@, benchmark) {
                Some(gates) => Ok(
                    IsaState {
                        qubits: state.qubits.update(
                            i,
                            QubitView { id, dead: false, gates: state.qubits[i].gates + gates },
                        ),
                        edges: state.edges,
                    },
                ),
                None => Err(IsaFailure::QubitOperation(id, name)),
            }
        } else {
            Err(IsaFailure::QubitDoesNotExist(name, id))
        }
    } else if node_count == Some(2i32) && nodes.len() == 2 {
        let id = sorted_pair(nodes);
        if exists|j: int| is_edge_position(state.edges, id, j) {
            let j = choose|j: int| is_edge_position(state.edges, id, j);
            match edge_gate(name, site.characteristics@) {
                Some(gate) => Ok(
                    IsaState {
                        qubits: state.qubits,
                        edges: state.edges.update(
                            j,
                            EdgeView { id, dead: false, gates: state.edges[j].gates.push(gate) },
                        ),
                    },
                ),
                None => Err(IsaFailure::EdgeOperation(name)),
            }
        } else {
            Err(IsaFailure::EdgeDoesNotExist(name, id))
        }
    } else {
        Err(IsaFailure::IncorrectNodes(node_count, nodes.len(), nodes, name))
    }
}

/// Adds an operation at each of its sites in turn; the first site that fails stops it.
pub open spec fn apply_sites(
    state: IsaState,
    name: Seq<char>,
    node_count: Option<i32>,
    sites: Seq<OperationSite>,
    benchmark: Seq<Characteristic>,
) -> Result<IsaState, IsaFailure>
    decreases sites.len(),
{
    if sites.len() == 0 {
        Ok(state)
    } else {
        match apply_sites(state, name, node_count, sites.drop_last(), benchmark) {
            Ok(earlier) => apply_site(earlier, name, node_count, sites.last(), benchmark),
            Err(failure) => Err(failure),
        }
    }
}

/// Adds each operation in turn at all its sites; the first site that fails stops it.
pub open spec fn apply_operations(
    state: IsaState,
    operations: Seq<Operation>,
    benchmark: Seq<Characteristic>,
) -> Result<IsaState, IsaFailure>
    decreases operations.len(),
{
    if operations.len() == 0 {
        Ok(state)
    } else {
        match apply_operations(state, operations.drop_last(), benchmark) {
            Ok(earlier) => apply_sites(
                earlier,
                operations.last().name@,
                operations.last().node_count,
                operations.last().sites@,
                benchmark,
            ),
            Err(failure) => Err(failure),
        }
    }
}

/// The views of a list of qubits.
pub open spec fn qubit_views(qubits: Seq<Qubit>) -> Seq<QubitView> {
    qubits.map_values(|qubit: Qubit| qubit@)
}

/// The views of a list of edges.
pub open spec fn edge_views(edges: Seq<Edge>) -> Seq<EdgeView> {
    edges.map_values(|edge: Edge| edge@)
}

/// The state of lists of qubits and edges.
pub open spec fn state_of(qubits: Seq<Qubit>, edges: Seq<Edge>) -> IsaState {
    IsaState { qubits: qubit_views(qubits), edges: edge_views(edges) }
}

/// The qubits and edges of an architecture before any operation is added: a fresh qubit for
/// each distinct node and a fresh edge for each distinct edge.
pub open spec fn initial_state(node_ids: Seq<i32>, edges: Seq<(i32, i32)>) -> IsaState {
    IsaState {
        qubits: Seq::new(
            node_ids.len(),
            |i: int| QubitView { id: node_ids[i], dead: true, gates: Seq::<OperatorView>::empty() },
        ),
        edges: Seq::new(
            edges.len(),
            |i: int| EdgeView { id: edges[i], dead: true, gates: Seq::<OperatorView>::empty() },
        ),
    }
}

fn qubit_position(qubits: &Vec<Qubit>, id: i32) -> (position: Option<usize>)
    ensures
        match position {
            Some(i) => is_qubit_position(qubit_views(qubits@), id, i as int),
            None => forall|i: int| !is_qubit_position(qubit_views(qubits@), id, i),
        },
{
    let mut j: usize = 0;
    while j < qubits.len()
        invariant
            j <= qubits@.len(),
            forall|k: int| 0 <= k < j ==> #[trigger] qubit_views(qubits@)[k].id != id,
        decreases qubits@.len() - j,
    {
        if qubits[j].id() == id {
            return Some(j);
        }
        j = j + 1;
    }
    None
}

fn edge_position(edges: &Vec<Edge>, id: &EdgeId) -> (position: Option<usize>)
    ensures
        match position {
            Some(j) => is_edge_position(edge_views(edges@), id_pair(*id), j as int),
            None => forall|j: int| !is_edge_position(edge_views(edges@), id_pair(*id), j),
        },
{
    let mut j: usize = 0;
    while j < edges.len()
        invariant
            j <= edges@.len(),
            forall|k: int| 0 <= k < j ==> #[trigger] edge_views(edges@)[k].id != id_pair(*id),
        decreases edges@.len() - j,
    {
        if edges[j].id().same(id) {
            return Some(j);
        }
        j = j + 1;
    }
    None
}

proof fn lemma_qubit_position_unique(qubits: Seq<QubitView>, id: i32, p: int)
    requires
        is_qubit_position(qubits, id, p),
    ensures
        forall|i: int| is_qubit_position(qubits, id, i) ==> i == p,
{
    assert forall|i: int| is_qubit_position(qubits, id, i) implies i == p by {
        if i < p {
            assert(qubits[i].id != id);
        } else if i > p {
            assert(qubits[p].id != id);
        }
    }
}

proof fn lemma_edge_position_unique(edges: Seq<EdgeView>, id: (i32, i32), p: int)
    requires
        is_edge_position(edges, id, p),
    ensures
        forall|j: int| is_edge_position(edges, id, j) ==> j == p,
{
    assert forall|j: int| is_edge_position(edges, id, j) implies j == p by {
        if j < p {
            assert(edges[j].id != id);
        } else if j > p {
            assert(edges[p].id != id);
        }
    }
}

fn add_site_operation(
    qubits: &mut Vec<Qubit>,
    edges: &mut Vec<Edge>,
    name: &String,
    node_count: Option<i32>,
    site: &OperationSite,
    frb_sim_1q: &FrbSim1q,
) -> (added: Result<(), Error>)
    ensures
        match apply_site(
            state_of(old(qubits)@, old(edges)@),
            name@,
            node_count,
            *site,
            frb_sim_1q.spec_characteristics(),
        ) {
            Ok(state) => added is Ok && state_of(final(qubits)@, final(edges)@) == state,
            Err(failure) => added is Err && is_failure(added->Err_0, failure),
        },
{
    let count: i32 = match node_count {
        Some(count) => count,
        None => 0,
    };
    let nodes = &site.node_ids;
    if node_count.is_some() && count == 1 && nodes.len() == 1 {
        let id = nodes[0];
        match qubit_position(qubits, id) {
            None => Err(Error::QubitDoesNotExist(name.clone(), id)),
            Some(i) => {
                proof {
                    lemma_qubit_position_unique(qubit_views(qubits@), id, i as int);
                }
                let ghost before = qubits@;
                let result = qubits[i].add_operation(
                    name.as_str(),
                    site.characteristics.as_slice(),
                    frb_sim_1q,
                );
                match result {
                    Ok(()) => {
                        assert(qubit_views(qubits@) =~= qubit_views(before).update(
                            i as int,
                            qubits@[i as int]@,
                        ));
                        Ok(())
                    },
                    Err(error) => Err(Error::Qubit(error)),
                }
            },
        }
    } else if node_count.is_some() && count == 2 && nodes.len() == 2 {
        let pair = [nodes[0], nodes[1]];
        assert(pair@[0] == nodes@[0] && pair@[1] == nodes@[1]);
        let id = EdgeId::new(pair);
        assert(id_pair(id) == sorted_pair(nodes@));
        match edge_position(edges, &id) {
            None => Err(Error::EdgeDoesNotExist(name.clone(), id)),
            Some(j) => {
                proof {
                    lemma_edge_position_unique(edge_views(edges@), id_pair(id), j as int);
                }
                let ghost before = edges@;
                let result = edges[j].add_operation(name.as_str(), site.characteristics.as_slice());
                match result {
                    Ok(()) => {
                        assert(edge_views(edges@) =~= edge_views(before).update(
                            j as int,
                            edges@[j as int]@,
                        ));
                        Ok(())
                    },
                    Err(error) => {
                        Err(Error::Edge(error))
                    },
                }
            },
        }
    } else {
        Err(
            Error::IncorrectNodes(
                (node_count, nodes.len()),
                name.clone(),
                vstd::slice::slice_to_vec(nodes.as_slice()),
            ),
        )
    }
}

proof fn lemma_sites_failure_extends(
    state: IsaState,
    name: Seq<char>,
    node_count: Option<i32>,
    sites: Seq<OperationSite>,
    benchmark: Seq<Characteristic>,
    k: int,
    failure: IsaFailure,
)
    requires
        0 <= k <= sites.len(),
        apply_sites(state, name, node_count, sites.subrange(0, k), benchmark) == Err::<
            IsaState,
            IsaFailure,
        >(failure),
    ensures
        apply_sites(state, name, node_count, sites, benchmark) == Err::<IsaState, IsaFailure>(
            failure,
        ),
    decreases sites.len() - k,
{
    if k < sites.len() {
        assert(sites.subrange(0, k + 1).drop_last() =~= sites.subrange(0, k));
        lemma_sites_failure_extends(state, name, node_count, sites, benchmark, k + 1, failure);
    } else {
        assert(sites.subrange(0, k) =~= sites);
    }
}

proof fn lemma_operations_failure_extends(
    state: IsaState,
    operations: Seq<Operation>,
    benchmark: Seq<Characteristic>,
    k: int,
    failure: IsaFailure,
)
    requires
        0 <= k <= operations.len(),
        apply_operations(state, operations.subrange(0, k), benchmark) == Err::<
            IsaState,
            IsaFailure,
        >(failure),
    ensures
        apply_operations(state, operations, benchmark) == Err::<IsaState, IsaFailure>(failure),
    decreases operations.len() - k,
{
    if k < operations.len() {
        assert(operations.subrange(0, k + 1).drop_last() =~= operations.subrange(0, k));
        lemma_operations_failure_extends(state, operations, benchmark, k + 1, failure);
    } else {
        assert(operations.subrange(0, k) =~= operations);
    }
}

impl View for Compiler {
    type V = IsaState;

    closed spec fn view(&self) -> IsaState {
        state_of(self.qubits@, self.edges@)
    }
}

/// The length of the nodes of the first edge that does not have exactly two.
pub open spec fn bad_edge_size(edges: Seq<models::Edge>) -> usize {
    edges[first_bad_edge(edges)].node_ids@.len() as usize
}

impl Compiler {
    /// The qubits, each with the gates it supports.
    pub fn qubits(&self) -> (qubits: &Vec<Qubit>)
        ensures
            qubit_views(qubits@) == self@.qubits,
    {
        &self.qubits
    }

    /// The edges, each with the gates it supports.
    pub fn edges(&self) -> (edges: &Vec<Edge>)
        ensures
            edge_views(edges@) == self@.edges,
    {
        &self.edges
    }

    /// Restructures an instruction set architecture for quilc: a qubit for each node and an
    /// edge for each connection, each given the gates of the operations defined at its site.
    /// The fidelity of `RX` gates comes from the single-qubit randomized benchmark.
    pub fn try_from(isa: InstructionSetArchitecture) -> (compiler: Result<Compiler, Error>)
        ensures
            match edge_ids(isa.architecture.edges@) {
                None => compiler matches Err(Error::Edge(edge::Error::EdgeSize(size))) && size
                    == bad_edge_size(isa.architecture.edges@),
                Some(ids) => match first_named(isa.benchmarks@, benchmark_name()) {
                    None => compiler matches Err(Error::Qubit(qubit::Error::MissingBenchmark)),
                    Some(benchmark) => if benchmark.sites@.len() != 1 {
                        compiler matches Err(Error::Qubit(qubit::Error::InvalidBenchmark))
                    } else {
                        match apply_operations(
                            initial_state(distinct_node_ids(isa.architecture.nodes@), ids),
                            isa.instructions@,
                            benchmark.sites@[0].characteristics@,
                        ) {
                            Ok(state) => compiler is Ok && compiler->Ok_0@ == state,
                            Err(failure) => compiler is Err && is_failure(
                                compiler->Err_0,
                                failure,
                            ),
                        }
                    },
                },
            },
    {
        let InstructionSetArchitecture { architecture, instructions, benchmarks } = isa;
        let mut qubits = Qubit::from_nodes(architecture.nodes.as_slice());
        let mut edges = match convert_edges(architecture.edges.as_slice()) {
            Ok(edges) => edges,
            Err(error) => {
                return Err(Error::Edge(error));
            },
        };
        let ghost ids = edge_ids(architecture.edges@)->Some_0;
        let frb_sim_1q = match FrbSim1q::try_from(benchmarks) {
            Ok(frb_sim_1q) => frb_sim_1q,
            Err(error) => {
                return Err(Error::Qubit(error));
            },
        };
        let ghost benchmark = frb_sim_1q.spec_characteristics();
        let ghost initial = initial_state(distinct_node_ids(architecture.nodes@), ids);
        assert(state_of(qubits@, edges@) =~= initial) by {
            assert(qubit_views(qubits@) =~= initial.qubits);
            assert(edge_views(edges@) =~= initial.edges);
        }
        assert(instructions@.subrange(0, 0) =~= Seq::<Operation>::empty());
        let mut o: usize = 0;
        while o < instructions.len()
            invariant
                o <= instructions@.len(),
                benchmark == frb_sim_1q.spec_characteristics(),
                edge_ids(isa.architecture.edges@) == Some(ids),
                instructions@ == isa.instructions@,
                first_named(isa.benchmarks@, benchmark_name()) matches Some(found) && found.sites@.len()
                    == 1 && found.sites@[0].characteristics@ == benchmark,
                initial == initial_state(distinct_node_ids(isa.architecture.nodes@), ids),
                apply_operations(initial, instructions@.subrange(0, o as int), benchmark) == Ok::<
                    IsaState,
                    IsaFailure,
                >(state_of(qubits@, edges@)),
            decreases instructions@.len() - o,
        {
            let operation = &instructions[o];
            let ghost start = state_of(qubits@, edges@);
            assert(operation.sites@.subrange(0, 0) =~= Seq::<OperationSite>::empty());
            let mut k: usize = 0;
            while k < operation.sites.len()
                invariant
                    k <= operation.sites@.len(),
                    operation == instructions@[o as int],
                    o < instructions@.len(),
                    benchmark == frb_sim_1q.spec_characteristics(),
                    edge_ids(isa.architecture.edges@) == Some(ids),
                    instructions@ == isa.instructions@,
                instructions@ == isa.instructions@,
                    first_named(isa.benchmarks@, benchmark_name()) matches Some(found) && found.sites@.len()
                        == 1 && found.sites@[0].characteristics@ == benchmark,
                    initial == initial_state(distinct_node_ids(isa.architecture.nodes@), ids),
                    apply_operations(initial, instructions@.subrange(0, o as int), benchmark)
                        == Ok::<IsaState, IsaFailure>(start),
                    apply_sites(
                        start,
                        operation.name@,
                        operation.node_count,
                        operation.sites@.subrange(0, k as int),
                        benchmark,
                    ) == Ok::<IsaState, IsaFailure>(state_of(qubits@, edges@)),
                decreases operation.sites@.len() - k,
            {
                assert(operation.sites@.subrange(0, k as int + 1).drop_last()
                    =~= operation.sites@.subrange(0, k as int));
                assert(operation.sites@.subrange(0, k as int + 1).last() == operation.sites@[k as int]);
                let added = add_site_operation(
                    &mut qubits,
                    &mut edges,
                    &operation.name,
                    operation.node_count,
                    &operation.sites[k],
                    &frb_sim_1q,
                );
                match added {
                    Ok(()) => {},
                    Err(error) => {
                        proof {
                            let failure = apply_sites(
                                start,
                                operation.name@,
                                operation.node_count,
                                operation.sites@.subrange(0, k as int + 1),
                                benchmark,
                            )->Err_0;
                            lemma_sites_failure_extends(
                                start,
                                operation.name@,
                                operation.node_count,
                                operation.sites@,
                                benchmark,
                                k as int + 1,
                                failure,
                            );
                            assert(instructions@.subrange(0, o as int + 1).drop_last()
                                =~= instructions@.subrange(0, o as int));
                            lemma_operations_failure_extends(
                                initial,
                                instructions@,
                                benchmark,
                                o as int + 1,
                                failure,
                            );
                        }
                        return Err(error);
                    },
                }
                k = k + 1;
            }
            assert(operation.sites@.subrange(0, operation.sites@.len() as int)
                =~= operation.sites@);
            assert(instructions@.subrange(0, o as int + 1).drop_last() =~= instructions@.subrange(
                0,
                o as int,
            ));
            o = o + 1;
        }
        assert(instructions@.subrange(0, instructions@.len() as int) =~= instructions@);
        Ok(Compiler { qubits, edges })
    }
}

} // verus!
