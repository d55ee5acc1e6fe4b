//! The operators that quilc is told a qubit or an edge supports.
//!
//! Fidelities, durations and angles are carried as the bits of their `f64` values.
use vstd::prelude::*;

verus! {

/// The bits of the fidelity of a perfect operation, `1.0`.
pub const PERFECT_FIDELITY: u64 = 0x3ff0_0000_0000_0000;

/// The bits of the duration of an operation that takes no time worth counting, `0.01`.
pub const PERFECT_DURATION: u64 = 0x3f84_7ae1_47ae_147b;

/// A parameter of a gate: an angle, or a name such as `_` for any.
#[derive(Debug, PartialEq, Eq)]
pub enum Parameter {
    /// An angle, as the bits of an `f64`.
    Float(u64),
    /// A named parameter.
    String(String),
}

/// An argument of a gate: a qubit, or a name such as `_` for any.
#[derive(Debug, PartialEq, Eq)]
pub enum Argument {
    /// A qubit by its index.
    Int(i32),
    /// A named argument.
    String(String),
}

/// An operation that quilc may use.
#[derive(Debug, PartialEq, Eq)]
pub enum Operator {
    /// A gate.
    Gate {
        /// The name of the operation.
        operator: String,
        /// Its parameters.
        parameters: Vec<Parameter>,
        /// Its arguments.
        arguments: Vec<Argument>,
        /// Its fidelity, as the bits of an `f64`.
        fidelity: u64,
        /// Its duration, as the bits of an `f64`.
        duration: u64,
    },
    /// A measurement.
    Measure {
        /// The name of the operation.
        operator: String,
        /// Its duration, as the bits of an `f64`.
        duration: u64,
        /// Its fidelity, as the bits of an `f64`.
        fidelity: u64,
        /// The qubit measured.
        qubit: i32,
        /// Where the result goes: `_` for any memory, `None` for none.
        target: Option<String>,
    },
}

/// The mathematical value of a [`Parameter`].
pub enum ParameterView {
    /// An angle's bits.
    Float(u64),
    /// A name.
    String(Seq<char>),
}

/// The mathematical value of an [`Argument`].
pub enum ArgumentView {
    /// A qubit.
    Int(i32),
    /// A name.
    String(Seq<char>),
}

/// The mathematical value of an [`Operator`].
pub enum OperatorView {
    /// A gate.
    Gate {
        operator: Seq<char>,
        parameters: Seq<ParameterView>,
        arguments: Seq<ArgumentView>,
        fidelity: u64,
        duration: u64,
    },
    /// A measurement.
    Measure {
        operator: Seq<char>,
        duration: u64,
        fidelity: u64,
        qubit: i32,
        target: Option<Seq<char>>,
    },
}

impl View for Parameter {
    type V = ParameterView;

    open spec fn view(&self) -> ParameterView {
        match self {
            Parameter::Float(bits) => ParameterView::Float(*bits),
            Parameter::String(name) => ParameterView::String(name@),
        }
    }
}

impl View for Argument {
    type V = ArgumentView;

    open spec fn view(&self) -> ArgumentView {
        match self {
            Argument::Int(qubit) => ArgumentView::Int(*qubit),
            Argument::String(name) => ArgumentView::String(name@),
        }
    }
}

/// The views of a list of parameters.
pub open spec fn parameter_views(parameters: Seq<Parameter>) -> Seq<ParameterView> {
    parameters.map_values(|parameter: Parameter| parameter@)
}

/// The views of a list of arguments.
pub open spec fn argument_views(arguments: Seq<Argument>) -> Seq<ArgumentView> {
    arguments.map_values(|argument: Argument| argument@)
}

impl View for Operator {
    type V = OperatorView;

    open spec fn view(&self) -> OperatorView {
        match self {
            Operator::Gate { operator, parameters, arguments, fidelity, duration } => {
                OperatorView::Gate {
                    operator: operator@,
                    parameters: parameter_views(parameters@),
                    arguments: argument_views(arguments@),
                    fidelity: *fidelity,
                    duration: *duration,
                }
            },
            Operator::Measure { operator, duration, fidelity, qubit, target } => {
                OperatorView::Measure {
                    operator: operator@,
                    duration: *duration,
                    fidelity: *fidelity,
                    qubit: *qubit,
                    target: match target {
                        Some(target) => Some(target@),
                        None => None,
                    },
                }
            },
        }
    }
}

/// The views of a list of operators.
pub open spec fn operator_views(operators: Seq<Operator>) -> Seq<OperatorView> {
    operators.map_values(|operator: Operator| operator@)
}

/// The argument that stands for a qubit, or for any qubit.
pub open spec fn wildcard_argument(node_id: Option<i32>) -> ArgumentView {
    match node_id {
        Some(node_id) => ArgumentView::Int(node_id),
        None => ArgumentView::String("_"@),
    }
}

/// The wildcard: a gate standing for any gate on a qubit (or on any qubit), with any
/// parameters, perfect fidelity and no duration worth counting.
pub open spec fn wildcard_view(node_id: Option<i32>) -> OperatorView {
    OperatorView::Gate {
        operator: "_"@,
        parameters: seq![ParameterView::String("_"@)],
        arguments: seq![wildcard_argument(node_id)],
        fidelity: PERFECT_FIDELITY,
        duration: PERFECT_DURATION,
    }
}

/// The wildcard: a gate standing for any gate on a qubit, or on any qubit where none is given.
pub fn wildcard(node_id: Option<i32>) -> (gate: Operator)
    ensures
        gate@ == wildcard_view(node_id),
{
    let argument = match node_id {
        Some(node_id) => Argument::Int(node_id),
        None => Argument::String("_".to_owned()),
    };
    let parameters = vec![Parameter::String("_".to_owned())];
    let arguments = vec![argument];
    let gate = Operator::Gate {
        operator: "_".to_owned(),
        parameters,
        arguments,
        fidelity: PERFECT_FIDELITY,
        duration: PERFECT_DURATION,
    };
    assert(parameter_views(parameters@) =~= seq![ParameterView::String("_"@)]);
    assert(argument_views(arguments@) =~= seq![wildcard_argument(node_id)]);
    gate
}

} // verus!
