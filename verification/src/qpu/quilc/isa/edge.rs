//! The edges of the architecture as quilc reads them: each connection between two qubits, with
//! the two-qubit gates it supports.
use super::models::{self, Characteristic};
use super::operator::{
    argument_views, operator_views, parameter_views, Argument, ArgumentView, Operator,
    OperatorView, Parameter, ParameterView, PERFECT_DURATION, PERFECT_FIDELITY,
};
use crate::text::{push_signed_decimal, signed_decimal, str_eq};
use vstd::prelude::*;

verus! {

/// The bits of the duration of a two-qubit gate, `200.0`.
pub const TWO_QUBIT_GATE_DURATION: u64 = 0x4069_0000_0000_0000;

/// The bits of the fidelity of a `CZ` gate without an `fCZ` characteristic, `0.89`.
pub const CZ_DEFAULT_FIDELITY: u64 = 0x3fec_7ae1_47ae_147b;

/// The bits of the fidelity of an `ISWAP` gate without an `fISWAP` characteristic, `0.90`.
pub const ISWAP_DEFAULT_FIDELITY: u64 = 0x3fec_cccc_cccc_cccd;

/// The bits of the fidelity of a `CPHASE` gate without an `fCPHASE` characteristic, `0.85`.
pub const CPHASE_DEFAULT_FIDELITY: u64 = 0x3feb_3333_3333_3333;

/// The bits of the fidelity of an `XY` gate without an `fXY` characteristic, `0.86`.
pub const XY_DEFAULT_FIDELITY: u64 = 0x3feb_851e_b851_eb85;

/// All the error which can occur from within this module.
#[derive(Debug, PartialEq, Eq)]
pub enum Error {
    /// An operation that edges do not support.
    UnknownOperator(String),
    /// Edges should have exactly 2 nodes; this many were given.
    EdgeSize(usize),
}

/// The unique identifier of an [`Edge`]: the sorted pair of the nodes that make it up. As a key
/// in the map that is sent to `quilc` it reads `"{node_id_1}-{node_id_2}"`.
#[derive(Debug, Clone, Copy, PartialEq, Eq, Hash)]
pub struct EdgeId([i32; 2]);

impl EdgeId {
    /// The smaller node of the edge.
    pub closed spec fn spec_first(&self) -> i32 {
        self.0@[0]
    }

    /// The larger node of the edge.
    pub closed spec fn spec_second(&self) -> i32 {
        self.0@[1]
    }

    /// The two nodes, the smaller first.
    pub fn node_ids(&self) -> (ids: [i32; 2])
        ensures
            ids@ == seq![self.spec_first(), self.spec_second()],
    {
        self.0
    }

    /// The identifier of the edge between two nodes, in either order.
    pub fn new(node_ids: [i32; 2]) -> (id: Self)
        ensures
            id.spec_first() == if node_ids@[0] <= node_ids@[1] {
                node_ids@[0]
            } else {
                node_ids@[1]
            },
            id.spec_second() == if node_ids@[0] <= node_ids@[1] {
                node_ids@[1]
            } else {
                node_ids@[0]
            },
    {
        let a = node_ids[0];
        let b = node_ids[1];
        if a <= b {
            EdgeId([a, b])
        } else {
            EdgeId([b, a])
        }
    }

    /// Whether two identifiers name the same edge.
    pub fn same(&self, other: &EdgeId) -> (same: bool)
        ensures
            same == (self.spec_first() == other.spec_first() && self.spec_second()
                == other.spec_second()),
    {
        self.0[0] == other.0[0] && self.0[1] == other.0[1]
    }

    /// The identifier of the edge between the nodes of a list, which must hold exactly two.
    pub fn try_from(node_ids: &Vec<i32>) -> (id: Result<Self, Error>)
        ensures
            node_ids@.len() == 2 ==> id is Ok && id->Ok_0.spec_first() == if node_ids@[0]
                <= node_ids@[1] {
                node_ids@[0]
            } else {
                node_ids@[1]
            } && id->Ok_0.spec_second() == if node_ids@[0] <= node_ids@[1] {
                node_ids@[1]
            } else {
                node_ids@[0]
            },
            node_ids@.len() != 2 ==> id == Err::<EdgeId, Error>(
                Error::EdgeSize(node_ids@.len() as usize),
            ),
    {
        if node_ids.len() == 2 {
            Ok(EdgeId::new([node_ids[0], node_ids[1]]))
        } else {
            Err(Error::EdgeSize(node_ids.len()))
        }
    }

    /// The quilc-style key of the edge: the two nodes in decimal, joined by `-`.
    pub open spec fn spec_key(&self) -> Seq<char> {
        signed_decimal(self.spec_first() as int) + seq!['-'] + signed_decimal(
            self.spec_second() as int,
        )
    }

    /// The quilc-style key of the edge, such as `1-2`.
    pub fn to_string(&self) -> (key: String)
        ensures
            key@ == self.spec_key(),
    {
        let mut key = String::new();
        push_signed_decimal(&mut key, self.0[0] as i64);
        proof {
            reveal_strlit("-");
        }
        key.append("-");
        push_signed_decimal(&mut key, self.0[1] as i64);
        assert(key@ =~= self.spec_key());
        key
    }
}

/// Represents a connection between two qubits.
#[derive(Debug, PartialEq, Eq)]
pub struct Edge {
    id: EdgeId,
    dead: bool,
    gates: Vec<Operator>,
}

/// The mathematical value of an [`Edge`].
pub struct EdgeView {
    /// The two nodes of the edge, the smaller first.
    pub id: (i32, i32),
    /// Whether it is dead.
    pub dead: bool,
    /// The gates it supports.
    pub gates: Seq<OperatorView>,
}

impl View for Edge {
    type V = EdgeView;

    open spec fn view(&self) -> EdgeView {
        EdgeView { id: id_pair(self.spec_id()), dead: self.spec_dead(), gates: self.spec_gates() }
    }
}

/// The parameters that a two-qubit gate takes: none, or an angle named `theta`.
pub open spec fn gate_parameters(takes_theta: bool) -> Seq<ParameterView> {
    if takes_theta {
        seq![ParameterView::String("theta"@)]
    } else {
        Seq::empty()
    }
}

/// The arguments of a two-qubit gate as quilc reads it: any two qubits of the edge.
pub open spec fn edge_arguments() -> Seq<ArgumentView> {
    seq![ArgumentView::String("_"@), ArgumentView::String("_"@)]
}

/// The value of the first characteristic of a name, if there is one.
pub open spec fn characteristic_value(characteristics: Seq<Characteristic>, name: Seq<char>) -> Option<
    u64,
>
    decreases characteristics.len(),
{
    if characteristics.len() == 0 {
        None
    } else if characteristics[0].name@ == name {
        Some(characteristics[0].value)
    } else {
        characteristic_value(characteristics.drop_first(), name)
    }
}

/// What is known of a two-qubit gate: its default fidelity, the characteristic that gives
/// its fidelity, and whether it takes an angle.
pub open spec fn gate_params(op_name: Seq<char>) -> Option<(u64, Seq<char>, bool)> {
    if op_name == "CZ"@ {
        Some((CZ_DEFAULT_FIDELITY, "fCZ"@, false))
    } else if op_name == "ISWAP"@ {
        Some((ISWAP_DEFAULT_FIDELITY, "fISWAP"@, false))
    } else if op_name == "CPHASE"@ {
        Some((CPHASE_DEFAULT_FIDELITY, "fCPHASE"@, true))
    } else if op_name == "XY"@ {
        Some((XY_DEFAULT_FIDELITY, "fXY"@, true))
    } else {
        None
    }
}

/// What an operation adds to an edge: its two-qubit gate, or `None` for an operation that
/// edges do not support.
pub open spec fn edge_gate(op_name: Seq<char>, characteristics: Seq<Characteristic>) -> Option<
    OperatorView,
> {
    match gate_params(op_name) {
        Some((default_fidelity, characteristic_name, takes_theta)) => Some(
            OperatorView::Gate {
                operator: op_name,
                parameters: gate_parameters(takes_theta),
                arguments: edge_arguments(),
                fidelity: match characteristic_value(characteristics, characteristic_name) {
                    Some(value) => value,
                    None => default_fidelity,
                },
                duration: TWO_QUBIT_GATE_DURATION,
            },
        ),
        None => if op_name == "WILDCARD"@ {
            Some(
                OperatorView::Gate {
                    operator: "_"@,
                    parameters: seq![ParameterView::String("_"@)],
                    arguments: edge_arguments(),
                    fidelity: PERFECT_FIDELITY,
                    duration: PERFECT_DURATION,
                },
            )
        } else {
            None
        },
    }
}

fn find_characteristic(characteristics: &[Characteristic], name: &String) -> (value: Option<u64>)
    ensures
        value == characteristic_value(characteristics@, name@),
{
    let ghost all = characteristics@;
    let mut j: usize = 0;
    assert(all.subrange(0, all.len() as int) =~= all);
    while j < characteristics.len()
        invariant
            all == characteristics@,
            j <= all.len(),
            characteristic_value(all, name@) == characteristic_value(
                all.subrange(j as int, all.len() as int),
                name@,
            ),
        decreases all.len() - j,
    {
        let ghost rest = all.subrange(j as int, all.len() as int);
        assert(rest.drop_first() =~= all.subrange(j as int + 1, all.len() as int));
        if characteristics[j].name.eq(name) {
            return Some(characteristics[j].value);
        }
        j = j + 1;
    }
    None
}

fn edge_arguments_exec() -> (arguments: Vec<Argument>)
    ensures
        argument_views(arguments@) == edge_arguments(),
{
    let arguments = vec![Argument::String("_".to_owned()), Argument::String("_".to_owned())];
    assert(argument_views(arguments@) =~= edge_arguments());
    arguments
}

fn basic_gate(
    op_name: &str,
    default_fidelity: u64,
    characteristic_name: &str,
    takes_theta: bool,
    characteristics: &[Characteristic],
) -> (gate: Operator)
    ensures
        gate@ == (OperatorView::Gate {
            operator: op_name@,
            parameters: gate_parameters(takes_theta),
            arguments: edge_arguments(),
            fidelity: match characteristic_value(characteristics@, characteristic_name@) {
                Some(value) => value,
                None => default_fidelity,
            },
            duration: TWO_QUBIT_GATE_DURATION,
        }),
{
    let fidelity = match find_characteristic(characteristics, &characteristic_name.to_owned()) {
        Some(value) => value,
        None => default_fidelity,
    };
    let parameters = if takes_theta {
        vec![Parameter::String("theta".to_owned())]
    } else {
        Vec::new()
    };
    assert(parameter_views(parameters@) =~= gate_parameters(takes_theta));
    Operator::Gate {
        operator: op_name.to_owned(),
        parameters,
        arguments: edge_arguments_exec(),
        fidelity,
        duration: TWO_QUBIT_GATE_DURATION,
    }
}

impl Edge {
    /// The identifier of the edge.
    pub closed spec fn spec_id(&self) -> EdgeId {
        self.id
    }

    /// Whether the edge is dead: no operation is defined on it.
    pub closed spec fn spec_dead(&self) -> bool {
        self.dead
    }

    /// The gates the edge supports, in the order they were added.
    pub closed spec fn spec_gates(&self) -> Seq<OperatorView> {
        operator_views(self.gates@)
    }

    /// The identifier of the edge.
    pub fn id(&self) -> (id: EdgeId)
        ensures
            id == self.spec_id(),
    {
        self.id
    }

    /// Whether the edge is dead.
    pub fn dead(&self) -> (dead: bool)
        ensures
            dead == self.spec_dead(),
    {
        self.dead
    }

    /// The gates the edge supports.
    pub fn gates(&self) -> (gates: &Vec<Operator>)
        ensures
            operator_views(gates@) == self.spec_gates(),
    {
        &self.gates
    }

    /// Construct an edge with no gates
    pub fn empty(id: EdgeId) -> (edge: Self)
        ensures
            edge.spec_id() == id,
            edge.spec_dead(),
            edge.spec_gates() == Seq::<OperatorView>::empty(),
    {
        let edge = Edge { id, dead: true, gates: Vec::new() };
        assert(operator_views(edge.gates@) =~= Seq::<OperatorView>::empty());
        edge
    }

    /// Adds an operation's two-qubit gate to the edge, which is then no longer dead; an operation
    /// that edges do not support is an error and leaves the edge unchanged.
    pub fn add_operation(&mut self, op_name: &str, characteristics: &[Characteristic]) -> (added:
        Result<(), Error>)
        ensures
            match edge_gate(op_name@, characteristics@) {
                Some(gate) => added is Ok && final(self).spec_id() == old(self).spec_id()
                    && !final(self).spec_dead() && final(self).spec_gates() == old(
                    self,
                ).spec_gates().push(gate),
                None => *final(self) == *old(self) && (added matches Err(
                    Error::UnknownOperator(name),
                ) && name@ == op_name@),
            },
    {
        let operator = if str_eq(op_name, "CZ") {
            basic_gate(op_name, CZ_DEFAULT_FIDELITY, "fCZ", false, characteristics)
        } else if str_eq(op_name, "ISWAP") {
            basic_gate(op_name, ISWAP_DEFAULT_FIDELITY, "fISWAP", false, characteristics)
        } else if str_eq(op_name, "CPHASE") {
            basic_gate(op_name, CPHASE_DEFAULT_FIDELITY, "fCPHASE", true, characteristics)
        } else if str_eq(op_name, "XY") {
            basic_gate(op_name, XY_DEFAULT_FIDELITY, "fXY", true, characteristics)
        } else if str_eq(op_name, "WILDCARD") {
            let parameters = vec![Parameter::String("_".to_owned())];
            assert(parameter_views(parameters@) =~= seq![ParameterView::String("_"@)]);
            Operator::Gate {
                operator: "_".to_owned(),
                parameters,
                arguments: edge_arguments_exec(),
                fidelity: PERFECT_FIDELITY,
                duration: PERFECT_DURATION,
            }
        } else {
            return Err(Error::UnknownOperator(op_name.to_owned()));
        };
        let ghost before = self.gates@;
        self.gates.push(operator);
        assert(operator_views(self.gates@) =~= operator_views(before).push(operator@));
        self.dead = false;
        Ok(())
    }
}

/// The identifiers of a list of edges, each a list of nodes, in the order they first appear;
/// `None` where an edge does not have exactly two nodes.
pub open spec fn edge_ids(edges: Seq<models::Edge>) -> Option<Seq<(i32, i32)>>
    decreases edges.len(),
{
    if edges.len() == 0 {
        Some(Seq::empty())
    } else {
        match edge_ids(edges.drop_last()) {
            None => None,
            Some(earlier) => {
                let nodes = edges.last().node_ids@;
                if nodes.len() != 2 {
                    None
                } else {
                    let id = if nodes[0] <= nodes[1] {
                        (nodes[0], nodes[1])
                    } else {
                        (nodes[1], nodes[0])
                    };
                    if earlier.contains(id) {
                        Some(earlier)
                    } else {
                        Some(earlier.push(id))
                    }
                }
            },
        }
    }
}

/// The first edge, in a list of edges, that does not have exactly two nodes.
pub open spec fn first_bad_edge(edges: Seq<models::Edge>) -> int
    decreases edges.len(),
{
    if edges.len() == 0 {
        0
    } else if edges[0].node_ids@.len() != 2 {
        0
    } else {
        1 + first_bad_edge(edges.drop_first())
    }
}

/// The nodes of an edge's identifier as a pair.
pub open spec fn id_pair(id: EdgeId) -> (i32, i32) {
    (id.spec_first(), id.spec_second())
}

fn has_edge(edges: &Vec<Edge>, id: &EdgeId) -> (found: bool)
    ensures
        found == exists|i: int| 0 <= i < edges@.len() && id_pair(#[trigger] edges@[i].spec_id()) == id_pair(*id),
{
    let mut i: usize = 0;
    while i < edges.len()
        invariant
            i <= edges@.len(),
            forall|j: int| 0 <= j < i ==> id_pair(#[trigger] edges@[j].spec_id()) != id_pair(*id),
        decreases edges@.len() - i,
    {
        if edges[i].id().same(id) {
            return true;
        }
        i = i + 1;
    }
    false
}

/// Whether edges are the fresh edges of a list of identifiers: dead, with no gates.
pub open spec fn are_fresh_edges(edges: Seq<Edge>, ids: Seq<(i32, i32)>) -> bool {
    &&& edges.len() == ids.len()
    &&& forall|i: int|
        0 <= i < edges.len() ==> id_pair((#[trigger] edges[i]).spec_id()) == ids[i]
            && edges[i].spec_dead() && edges[i].spec_gates() == Seq::<OperatorView>::empty()
}

/// Convert the QCS ISA representation of edges to the quilc form [`Edge`]: one fresh edge for
/// each distinct identifier, in the order they first appear. An edge that does not have exactly
/// two nodes is an error.
pub fn convert_edges(edges: &[models::Edge]) -> (converted: Result<Vec<Edge>, Error>)
    ensures
        match edge_ids(edges@) {
            Some(ids) => converted is Ok && are_fresh_edges(converted->Ok_0@, ids),
            None => 0 <= first_bad_edge(edges@) < edges@.len() && converted == Err::<Vec<Edge>, Error>(
                Error::EdgeSize(edges@[first_bad_edge(edges@)].node_ids@.len() as usize),
            ),
        },
{
    let mut converted: Vec<Edge> = Vec::new();
    let mut k: usize = 0;
    while k < edges.len()
        invariant
            k <= edges@.len(),
            edge_ids(edges@.subrange(0, k as int)) is Some,
            forall|j: int| 0 <= j < k ==> (#[trigger] edges@[j]).node_ids@.len() == 2,
            are_fresh_edges(converted@, edge_ids(edges@.subrange(0, k as int))->Some_0),
        decreases edges@.len() - k,
    {
        let ghost prefix = edges@.subrange(0, k as int + 1);
        assert(prefix.drop_last() =~= edges@.subrange(0, k as int));
        let ghost earlier = edge_ids(edges@.subrange(0, k as int))->Some_0;
        let id = match EdgeId::try_from(&edges[k].node_ids) {
            Ok(id) => id,
            Err(error) => {
                proof {
                    lemma_edge_ids_none_extends(edges@, k as int + 1);
                    lemma_first_bad_edge(edges@, k as int);
                }
                return Err(error);
            },
        };
        if has_edge(&converted, &id) {
            let ghost i = choose|i: int| 0 <= i < converted@.len() && id_pair(#[trigger] converted@[i].spec_id()) == id_pair(id);
            assert(earlier[i] == id_pair(id));
            assert(earlier.contains(id_pair(id)));
        } else {
            assert(!earlier.contains(id_pair(id))) by {
                if earlier.contains(id_pair(id)) {
                    let i = choose|i: int| 0 <= i < earlier.len() && earlier[i] == id_pair(id);
                    assert(id_pair(converted@[i].spec_id()) == id_pair(id));
                }
            }
            converted.push(Edge::empty(id));
        }
        k = k + 1;
    }
    assert(edges@.subrange(0, edges@.len() as int) =~= edges@);
    Ok(converted)
}

proof fn lemma_first_bad_edge(edges: Seq<models::Edge>, k: int)
    requires
        0 <= k < edges.len(),
        forall|j: int| 0 <= j < k ==> (#[trigger] edges[j]).node_ids@.len() == 2,
        edges[k].node_ids@.len() != 2,
    ensures
        first_bad_edge(edges) == k,
    decreases k,
{
    if k > 0 {
        assert forall|j: int| 0 <= j < k - 1 implies (#[trigger] edges.drop_first()[j]).node_ids@.len()
            == 2 by {
            assert(edges.drop_first()[j] == edges[j + 1]);
        }
        lemma_first_bad_edge(edges.drop_first(), k - 1);
        assert(edges[0].node_ids@.len() == 2);
    }
}

proof fn lemma_edge_ids_none_extends(edges: Seq<models::Edge>, k: int)
    requires
        0 < k <= edges.len(),
        edge_ids(edges.subrange(0, k)) is None,
    ensures
        edge_ids(edges) is None,
    decreases edges.len() - k,
{
    if k < edges.len() {
        assert(edges.subrange(0, k + 1).drop_last() =~= edges.subrange(0, k));
        lemma_edge_ids_none_extends(edges, k + 1);
    } else {
        assert(edges.subrange(0, k) =~= edges);
    }
}

/// The two-qubit gates that an edge supports: `CZ`, `ISWAP`, `CPHASE` and `XY` each add one gate
/// of that name on any two qubits of the edge, lasting 200 ns. Its fidelity is the value of the
/// characteristic fCZ, fISWAP, fCPHASE or fXY of the site, where it has that characteristic.
/// The parametric gates `CPHASE` and `XY` take exactly one parameter, the angle `theta`; `CZ`
/// and `ISWAP` take none.
pub proof fn lemma_two_qubit_gates(op_name: Seq<char>, characteristics: Seq<Characteristic>)
    requires
        op_name == "CZ"@ || op_name == "ISWAP"@ || op_name == "CPHASE"@ || op_name == "XY"@,
    ensures
        edge_gate(op_name, characteristics) matches Some(
            OperatorView::Gate { operator, parameters, arguments, fidelity, duration },
        ) && operator == op_name && arguments == seq![
            ArgumentView::String("_"@),
            ArgumentView::String("_"@),
        ] && duration == 0x4069_0000_0000_0000u64 && (op_name == "CPHASE"@ || op_name == "XY"@
            ==> parameters == seq![ParameterView::String("theta"@)]) && (op_name == "CZ"@
            || op_name == "ISWAP"@ ==> parameters == Seq::<ParameterView>::empty()) && (
        characteristic_value(characteristics, "f"@ + op_name) matches Some(value) ==> fidelity
            == value),
{
    reveal_strlit("CZ");
    reveal_strlit("ISWAP");
    reveal_strlit("CPHASE");
    reveal_strlit("XY");
    reveal_strlit("f");
    reveal_strlit("fCZ");
    reveal_strlit("fISWAP");
    reveal_strlit("fCPHASE");
    reveal_strlit("fXY");
    reveal_strlit("theta");
    reveal_strlit("_");
    assert("XY"@ != "CZ"@) by {
        assert("XY"@[0] != "CZ"@[0]);
    }
    assert("CPHASE"@.len() != "CZ"@.len() && "CPHASE"@.len() != "ISWAP"@.len());
    assert("XY"@.len() != "ISWAP"@.len() && "XY"@.len() != "CPHASE"@.len());
    assert("CZ"@.len() != "ISWAP"@.len());
    if op_name == "CZ"@ {
        assert("f"@ + op_name =~= "fCZ"@);
    } else if op_name == "ISWAP"@ {
        assert("f"@ + op_name =~= "fISWAP"@);
    } else if op_name == "CPHASE"@ {
        assert("f"@ + op_name =~= "fCPHASE"@);
    } else {
        assert("f"@ + op_name =~= "fXY"@);
    }
}

/// Edges support exactly the operations `CZ`, `ISWAP`, `CPHASE`, `XY` and `WILDCARD`: any other
/// name adds no gate.
pub proof fn lemma_edge_operations(op_name: Seq<char>, characteristics: Seq<Characteristic>)
    ensures
        edge_gate(op_name, characteristics) is Some <==> (op_name == "CZ"@ || op_name == "ISWAP"@
            || op_name == "CPHASE"@ || op_name == "XY"@ || op_name == "WILDCARD"@),
{
}

} // verus!
