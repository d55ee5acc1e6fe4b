//! Plain models of the Quil memory declarations, memory references, qubits and
//! measurements that this library reads and produces.
use vstd::prelude::*;

verus! {

/// A Quil expression, carried through this library unchanged.
#[verifier::external_type_specification]
#[verifier::external_body]
pub struct ExExpression(quil_rs::expression::Expression);

/// The scalar type of a declared memory region.
#[derive(Debug, Clone, Copy, PartialEq, Eq)]
pub enum ScalarType {
    /// `BIT`
    Bit,
    /// `INTEGER`
    Integer,
    /// `OCTET`
    Octet,
    /// `REAL`
    Real,
}

/// The type and length of a declared memory region.
#[derive(Debug, Clone, Copy, PartialEq, Eq)]
pub struct Vector {
    /// The scalar type of each element.
    pub data_type: ScalarType,
    /// The number of elements.
    pub length: u64,
}

/// A `DECLARE` of a memory region (without memory sharing).
#[derive(Debug, PartialEq, Eq)]
pub struct Declaration {
    /// The name of the region.
    pub name: String,
    /// Its type and length.
    pub size: Vector,
}

/// A reference to one element of a memory region, such as `ro[0]`.
#[derive(Debug, PartialEq, Eq)]
pub struct MemoryReference {
    /// The name of the region.
    pub name: String,
    /// The index of the element.
    pub index: u64,
}

/// A qubit as it appears in an instruction.
#[derive(Debug, PartialEq, Eq)]
pub enum Qubit {
    /// A fixed, physical qubit index.
    Fixed(u64),
    /// A placeholder qubit, identified by a number unique among the placeholders in use.
    Placeholder(u64),
    /// A qubit variable, as used inside gate definitions.
    Variable(String),
}

/// A `MEASURE` instruction.
#[derive(Debug, PartialEq, Eq)]
pub struct Measurement {
    /// The qubit to measure.
    pub qubit: Qubit,
    /// Where the result is written, if anywhere.
    pub target: Option<MemoryReference>,
}

/// The mathematical value of a [`Declaration`].
pub struct DeclarationView {
    /// The name of the region.
    pub name: Seq<char>,
    /// Its type and length.
    pub size: Vector,
}

/// The mathematical value of a [`MemoryReference`].
pub struct MemoryReferenceView {
    /// The name of the region.
    pub name: Seq<char>,
    /// The index of the element.
    pub index: u64,
}

/// The mathematical value of a [`Qubit`].
pub enum QubitView {
    /// A fixed qubit index.
    Fixed(u64),
    /// A placeholder, by its number.
    Placeholder(u64),
    /// A qubit variable, by its name.
    Variable(Seq<char>),
}

/// The mathematical value of a [`Measurement`].
pub struct MeasurementView {
    /// The qubit to measure.
    pub qubit: QubitView,
    /// Where the result is written, if anywhere.
    pub target: Option<MemoryReferenceView>,
}

impl View for Declaration {
    type V = DeclarationView;

    open spec fn view(&self) -> DeclarationView {
        DeclarationView { name: self.name@, size: self.size }
    }
}

impl View for MemoryReference {
    type V = MemoryReferenceView;

    open spec fn view(&self) -> MemoryReferenceView {
        MemoryReferenceView { name: self.name@, index: self.index }
    }
}

impl View for Qubit {
    type V = QubitView;

    open spec fn view(&self) -> QubitView {
        match self {
            Qubit::Fixed(index) => QubitView::Fixed(*index),
            Qubit::Placeholder(id) => QubitView::Placeholder(*id),
            Qubit::Variable(name) => QubitView::Variable(name@),
        }
    }
}

/// The view of an optional memory reference.
pub open spec fn target_view(target: Option<MemoryReference>) -> Option<MemoryReferenceView> {
    match target {
        Some(reference) => Some(reference@),
        None => None,
    }
}

impl View for Measurement {
    type V = MeasurementView;

    open spec fn view(&self) -> MeasurementView {
        MeasurementView { qubit: self.qubit@, target: target_view(self.target) }
    }
}

impl Clone for Declaration {
    fn clone(&self) -> (copy: Self)
        ensures
            copy@ == self@,
    {
        Declaration { name: self.name.clone(), size: self.size }
    }
}

impl Clone for MemoryReference {
    fn clone(&self) -> (copy: Self)
        ensures
            copy@ == self@,
    {
        MemoryReference { name: self.name.clone(), index: self.index }
    }
}

impl Clone for Qubit {
    fn clone(&self) -> (copy: Self)
        ensures
            copy@ == self@,
    {
        match self {
            Qubit::Fixed(index) => Qubit::Fixed(*index),
            Qubit::Placeholder(id) => Qubit::Placeholder(*id),
            Qubit::Variable(name) => Qubit::Variable(name.clone()),
        }
    }
}

impl Clone for Measurement {
    fn clone(&self) -> (copy: Self)
        ensures
            copy@ == self@,
    {
        let target = match &self.target {
            Some(reference) => Some(reference.clone()),
            None => None,
        };
        Measurement { qubit: self.qubit.clone(), target }
    }
}

/// Whether two qubits denote the same qubit.
pub fn qubits_equal(a: &Qubit, b: &Qubit) -> (equal: bool)
    ensures
        equal == (a@ == b@),
{
    match (a, b) {
        (Qubit::Fixed(x), Qubit::Fixed(y)) => *x == *y,
        (Qubit::Placeholder(x), Qubit::Placeholder(y)) => *x == *y,
        (Qubit::Variable(x), Qubit::Variable(y)) => x.eq(y),
        _ => false,
    }
}

} // verus!
