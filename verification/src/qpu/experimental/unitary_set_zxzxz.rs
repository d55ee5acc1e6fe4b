//! A set of unitaries, each expressed as RZ(angle_0)-RX(pi/2)-RZ(angle_1)-RX(pi/2)-RZ(angle_2).
//!
//! Angles are carried as the bits of their `f64` values.
use crate::qpu::experimental::randomized_measurements::{QubitRandomization, UnitarySet};
use crate::qpu::quilc::isa::qubit::{ANGLE_HALF_PI, ANGLE_MINUS_HALF_PI, ANGLE_PI};
use crate::quil::{Qubit, QubitView};
use vstd::prelude::*;

verus! {

/// The bits of the angle 0.
pub const ANGLE_ZERO: u64 = 0;

/// The three RZ angles of each unitary of the
/// [tetrahedral unitary ensemble](https://en.wikipedia.org/wiki/Tetrahedral_symmetry).
pub open spec fn tetrahedral_angles() -> Seq<[u64; 3]> {
    seq![
        [ANGLE_ZERO, ANGLE_HALF_PI, ANGLE_MINUS_HALF_PI],
        [ANGLE_PI, ANGLE_HALF_PI, ANGLE_MINUS_HALF_PI],
        [ANGLE_ZERO, ANGLE_HALF_PI, ANGLE_HALF_PI],
        [ANGLE_PI, ANGLE_HALF_PI, ANGLE_HALF_PI],
        [ANGLE_MINUS_HALF_PI, ANGLE_HALF_PI, ANGLE_PI],
        [ANGLE_MINUS_HALF_PI, ANGLE_HALF_PI, ANGLE_ZERO],
        [ANGLE_HALF_PI, ANGLE_HALF_PI, ANGLE_PI],
        [ANGLE_HALF_PI, ANGLE_HALF_PI, ANGLE_ZERO],
        [ANGLE_HALF_PI, ANGLE_PI, ANGLE_MINUS_HALF_PI],
        [ANGLE_PI, ANGLE_PI, ANGLE_ZERO],
        [ANGLE_MINUS_HALF_PI, ANGLE_ZERO, ANGLE_MINUS_HALF_PI],
        [ANGLE_ZERO, ANGLE_ZERO, ANGLE_PI],
    ]
}

/// A set of unitaries, each of which may be expressed as a set of Quil instructions:
/// RZ(angle_0)-RX(pi/2)-RZ(angle_1)-RX(pi/2)-RZ(angle_2). Each row holds the three RZ angles
/// of one unitary.
#[derive(Debug)]
pub struct ZxzxzUnitarySet(Vec<[u64; 3]>);

/// One instruction of the unitaries applied to randomized qubits.
#[derive(Debug)]
pub enum ZxzxzInstruction {
    /// A `FENCE` on all qubits.
    Fence,
    /// `RZ(2*pi*destination[index])` on a qubit, where `destination` names the region that
    /// receives the qubit's per-shot random parameters.
    Rz {
        /// The qubit.
        qubit: Qubit,
        /// The name of the region.
        destination: String,
        /// The element of the region.
        index: u64,
    },
    /// `RX(pi/2)` on a qubit.
    RxPiOverTwo(Qubit),
}

/// The mathematical value of a [`ZxzxzInstruction`].
pub enum ZxzxzInstructionView {
    /// A fence.
    Fence,
    /// A parameterized RZ.
    Rz(QubitView, Seq<char>, u64),
    /// An RX by pi/2.
    RxPiOverTwo(QubitView),
}

impl View for ZxzxzInstruction {
    type V = ZxzxzInstructionView;

    open spec fn view(&self) -> ZxzxzInstructionView {
        match self {
            ZxzxzInstruction::Fence => ZxzxzInstructionView::Fence,
            ZxzxzInstruction::Rz { qubit, destination, index } => ZxzxzInstructionView::Rz(
                qubit@,
                destination@,
                *index,
            ),
            ZxzxzInstruction::RxPiOverTwo(qubit) => ZxzxzInstructionView::RxPiOverTwo(qubit@),
        }
    }
}

/// The views of a list of instructions.
pub open spec fn instruction_views(instructions: Seq<ZxzxzInstruction>) -> Seq<
    ZxzxzInstructionView,
> {
    instructions.map_values(|instruction: ZxzxzInstruction| instruction@)
}

/// The qubit a randomization measures.
pub open spec fn randomized_qubit(randomization: QubitRandomization) -> QubitView {
    randomization.spec_measurement().qubit
}

/// The region that receives a randomization's per-shot parameters.
pub open spec fn destination_name(randomization: QubitRandomization) -> Seq<char> {
    randomization.spec_destination_declaration().name
}

/// The first part of the unitaries: on each qubit in turn RZ, RX(pi/2), RZ with the first two
/// parameters.
pub open spec fn first_part(randomizations: Seq<QubitRandomization>) -> Seq<ZxzxzInstructionView>
    decreases randomizations.len(),
{
    if randomizations.len() == 0 {
        Seq::empty()
    } else {
        let last = randomizations.last();
        first_part(randomizations.drop_last()) + seq![
            ZxzxzInstructionView::Rz(randomized_qubit(last), destination_name(last), 0),
            ZxzxzInstructionView::RxPiOverTwo(randomized_qubit(last)),
            ZxzxzInstructionView::Rz(randomized_qubit(last), destination_name(last), 1),
        ]
    }
}

/// The second part of the unitaries: on each qubit in turn RX(pi/2), RZ with the third
/// parameter.
pub open spec fn second_part(randomizations: Seq<QubitRandomization>) -> Seq<ZxzxzInstructionView>
    decreases randomizations.len(),
{
    if randomizations.len() == 0 {
        Seq::empty()
    } else {
        let last = randomizations.last();
        second_part(randomizations.drop_last()) + seq![
            ZxzxzInstructionView::RxPiOverTwo(randomized_qubit(last)),
            ZxzxzInstructionView::Rz(randomized_qubit(last), destination_name(last), 2),
        ]
    }
}

/// The instructions of the unitaries on randomized qubits: a fence, the first part of every
/// qubit's unitary, a fence, the second part of every qubit's unitary.
pub open spec fn zxzxz_instructions(randomizations: Seq<QubitRandomization>) -> Seq<
    ZxzxzInstructionView,
> {
    seq![ZxzxzInstructionView::Fence] + first_part(randomizations) + seq![
        ZxzxzInstructionView::Fence,
    ] + second_part(randomizations)
}

/// The parameters of a list of unitaries, row by row.
pub open spec fn flattened(rows: Seq<[u64; 3]>) -> Seq<u64>
    decreases rows.len(),
{
    if rows.len() == 0 {
        Seq::empty()
    } else {
        flattened(rows.drop_last()) + rows.last()@
    }
}

impl ZxzxzUnitarySet {
    /// The angles of the unitaries, one row each.
    pub closed spec fn spec_rows(&self) -> Seq<[u64; 3]> {
        self.0@
    }

    /// Create a new unitary set with angles representing the tetrahedral unitary ensemble.
    pub fn tetrahedral() -> (set: Self)
        ensures
            set.spec_rows() == tetrahedral_angles(),
    {
        let rows = vec![
            [ANGLE_ZERO, ANGLE_HALF_PI, ANGLE_MINUS_HALF_PI],
            [ANGLE_PI, ANGLE_HALF_PI, ANGLE_MINUS_HALF_PI],
            [ANGLE_ZERO, ANGLE_HALF_PI, ANGLE_HALF_PI],
            [ANGLE_PI, ANGLE_HALF_PI, ANGLE_HALF_PI],
            [ANGLE_MINUS_HALF_PI, ANGLE_HALF_PI, ANGLE_PI],
            [ANGLE_MINUS_HALF_PI, ANGLE_HALF_PI, ANGLE_ZERO],
            [ANGLE_HALF_PI, ANGLE_HALF_PI, ANGLE_PI],
            [ANGLE_HALF_PI, ANGLE_HALF_PI, ANGLE_ZERO],
            [ANGLE_HALF_PI, ANGLE_PI, ANGLE_MINUS_HALF_PI],
            [ANGLE_PI, ANGLE_PI, ANGLE_ZERO],
            [ANGLE_MINUS_HALF_PI, ANGLE_ZERO, ANGLE_MINUS_HALF_PI],
            [ANGLE_ZERO, ANGLE_ZERO, ANGLE_PI],
        ];
        assert(rows@ =~= tetrahedral_angles());
        ZxzxzUnitarySet(rows)
    }
}

impl UnitarySet for ZxzxzUnitarySet {
    open spec fn spec_unitary_count(&self) -> usize {
        self.spec_rows().len() as usize
    }

    open spec fn spec_parameters_per_unitary(&self) -> usize {
        3
    }

    fn unitary_count(&self) -> (count: usize) {
        self.0.len()
    }

    fn parameters_per_unitary(&self) -> (count: usize) {
        3
    }

    type Instruction = ZxzxzInstruction;

    /// The parameters of all the unitaries, row by row: the three angles of each in turn.
    fn to_parameters(&self) -> (parameters: Vec<u64>)
        ensures
            parameters@ == flattened(self.spec_rows()),
    {
        let mut parameters: Vec<u64> = Vec::new();
        let mut i: usize = 0;
        while i < self.0.len()
            invariant
                i <= self.0@.len(),
                parameters@ == flattened(self.0@.take(i as int)),
            decreases self.0@.len() - i,
        {
            let row = self.0[i];
            parameters.push(row[0]);
            parameters.push(row[1]);
            parameters.push(row[2]);
            assert(self.0@.take(i as int + 1).drop_last() =~= self.0@.take(i as int));
            assert(parameters@ =~= flattened(self.0@.take(i as int + 1)));
            i = i + 1;
        }
        assert(self.0@.take(self.0@.len() as int) =~= self.0@);
        parameters
    }

    /// The instructions that apply, to each randomized qubit, the unitary that its destination
    /// region selects: a fence, on each qubit RZ, RX(pi/2), RZ with the first two parameters, a
    /// fence, and on each qubit RX(pi/2), RZ with the third parameter.
    fn to_instructions(&self, qubit_randomizations: &[QubitRandomization]) -> (instructions:
        Vec<ZxzxzInstruction>)
        ensures
            instruction_views(instructions@) == zxzxz_instructions(qubit_randomizations@),
    {
        let mut instructions: Vec<ZxzxzInstruction> = Vec::new();
        instructions.push(ZxzxzInstruction::Fence);
        let ghost opening = instruction_views(instructions@);
        assert(opening =~= seq![ZxzxzInstructionView::Fence]);
        assert(qubit_randomizations@.take(0) =~= Seq::<QubitRandomization>::empty());
        let mut i: usize = 0;
        while i < qubit_randomizations.len()
            invariant
                i <= qubit_randomizations@.len(),
                instruction_views(instructions@) == opening + first_part(
                    qubit_randomizations@.take(i as int),
                ),
            decreases qubit_randomizations@.len() - i,
        {
            let randomization = &qubit_randomizations[i];
            let qubit = &randomization.get_measurement().qubit;
            let destination = &randomization.get_destination_declaration().name;
            let ghost before = instructions@;
            instructions.push(
                ZxzxzInstruction::Rz { qubit: qubit.clone(), destination: destination.clone(), index: 0 },
            );
            instructions.push(ZxzxzInstruction::RxPiOverTwo(qubit.clone()));
            instructions.push(
                ZxzxzInstruction::Rz { qubit: qubit.clone(), destination: destination.clone(), index: 1 },
            );
            assert(qubit_randomizations@.take(i as int + 1).drop_last()
                =~= qubit_randomizations@.take(i as int));
            assert(instruction_views(instructions@) =~= instruction_views(before) + seq![
                instructions@[before.len() as int]@,
                instructions@[before.len() as int + 1]@,
                instructions@[before.len() as int + 2]@,
            ]);
            i = i + 1;
        }
        let ghost first = instructions@;
        instructions.push(ZxzxzInstruction::Fence);
        let ghost middle = instruction_views(instructions@);
        assert(qubit_randomizations@.take(qubit_randomizations@.len() as int)
            =~= qubit_randomizations@);
        assert(middle =~= instruction_views(first).push(ZxzxzInstructionView::Fence));
        let mut i: usize = 0;
        while i < qubit_randomizations.len()
            invariant
                i <= qubit_randomizations@.len(),
                instruction_views(instructions@) == middle + second_part(
                    qubit_randomizations@.take(i as int),
                ),
            decreases qubit_randomizations@.len() - i,
        {
            let randomization = &qubit_randomizations[i];
            let qubit = &randomization.get_measurement().qubit;
            let destination = &randomization.get_destination_declaration().name;
            let ghost before = instructions@;
            instructions.push(ZxzxzInstruction::RxPiOverTwo(qubit.clone()));
            instructions.push(
                ZxzxzInstruction::Rz { qubit: qubit.clone(), destination: destination.clone(), index: 2 },
            );
            assert(qubit_randomizations@.take(i as int + 1).drop_last()
                =~= qubit_randomizations@.take(i as int));
            assert(instruction_views(instructions@) =~= instruction_views(before) + seq![
                instructions@[before.len() as int]@,
                instructions@[before.len() as int + 1]@,
            ]);
            i = i + 1;
        }
        assert(instruction_views(instructions@) == middle + second_part(qubit_randomizations@));
        assert(instruction_views(instructions@) =~= zxzxz_instructions(qubit_randomizations@));
        instructions
    }
}

} // verus!
