//! Generalized support for adding randomized measurements to a Quil program, built on the
//! primitives of [`super::random`].
//!
//! Measurement randomization randomly rotates each qubit prior to measurement, per shot.
//! [`RandomizedMeasurements`] handles three components:
//!
//! 1. Program construction - the declarations, the classical randomization calls in the
//!    prologue of the program, and the measurements, laid out as a sequence of
//!    [`ProgramSection`]s around the body of the target program.
//! 2. Parameter construction - the memory values to run the program with, including a seed
//!    for each qubit.
//! 3. PRNG reconstruction - backing out the random indices that played on each qubit during
//!    program execution.
use std::collections::HashMap;

use quil_rs::expression::Expression;
use vstd::prelude::*;

use crate::qpu::experimental::random::{
    self, lfsr_v1_iterate, sub_region_call_error, sub_region_index, ChooseRandomRealSubRegions,
    PrngSeedValue,
};
use crate::quil::{
    qubits_equal, Declaration, DeclarationView, Measurement, MeasurementView, MemoryReference,
    Qubit, QubitView, ScalarType, Vector,
};
use crate::text::{decimal, push_decimal};

verus! {

broadcast use vstd::std_specs::hash::group_hash_axioms;

/// The name of the memory region holding the parameters of every unitary in the set.
pub const RANDOMIZED_MEASUREMENT_SOURCE: &'static str = "randomized_measurement_source";

/// The prefix of the name of the memory region receiving a qubit's randomly drawn unitary.
pub const RANDOMIZED_MEASUREMENT_DESTINATION_PREFIX: &'static str =
    "randomized_measurement_destination_q";

/// The prefix of the name of the memory region holding a qubit's PRNG seed.
pub const RANDOMIZED_MEASUREMENT_SEED_PREFIX: &'static str = "randomized_measurement_seed_q";

/// The name of the seed region of the qubit with the given index.
pub open spec fn seed_name(qubit_index: u64) -> Seq<char> {
    RANDOMIZED_MEASUREMENT_SEED_PREFIX@ + decimal(qubit_index as nat)
}

/// The name of the destination region of the qubit with the given index.
pub open spec fn destination_name(qubit_index: u64) -> Seq<char> {
    RANDOMIZED_MEASUREMENT_DESTINATION_PREFIX@ + decimal(qubit_index as nat)
}

/// The sub-region indices drawn during `shot_count` shots from a seed: one per shot.
pub open spec fn drawn_indices(seed: u64, shot_count: u32, unitary_count: u8) -> Seq<u8> {
    Seq::new(
        shot_count as nat,
        |k: int| sub_region_index(lfsr_v1_iterate(seed, (k + 1) as nat), unitary_count),
    )
}

/// Whether every measurement is on a fixed qubit.
pub open spec fn all_fixed(measurements: Seq<Measurement>) -> bool {
    forall|i: int| 0 <= i < measurements.len() ==> (#[trigger] measurements[i]).qubit is Fixed
}

/// The index of the first measurement that is not on a fixed qubit.
pub open spec fn first_unfixed(measurements: Seq<Measurement>) -> int
    decreases measurements.len(),
{
    if measurements.len() == 0 {
        0
    } else if !(measurements[0].qubit is Fixed) {
        0
    } else {
        1 + first_unfixed(measurements.drop_first())
    }
}

proof fn lemma_first_unfixed(measurements: Seq<Measurement>)
    requires
        !all_fixed(measurements),
    ensures
        0 <= first_unfixed(measurements) < measurements.len(),
        !(measurements[first_unfixed(measurements)].qubit is Fixed),
        forall|j: int|
            0 <= j < first_unfixed(measurements) ==> (#[trigger] measurements[j]).qubit is Fixed,
    decreases measurements.len(),
{
    if measurements[0].qubit is Fixed {
        let rest = measurements.drop_first();
        assert(!all_fixed(rest)) by {
            let i = choose|i: int|
                0 <= i < measurements.len() && !((#[trigger] measurements[i]).qubit is Fixed);
            assert(rest[i - 1] == measurements[i]);
        }
        lemma_first_unfixed(rest);
        assert forall|j: int| 0 <= j < first_unfixed(measurements) implies (
        #[trigger] measurements[j]).qubit is Fixed by {
            if j > 0 {
                assert(measurements[j] == rest[j - 1]);
            }
        }
    }
}

/// An error that may occur when constructing randomized measurements.
#[derive(Debug)]
pub enum Error {
    /// Received measurement on non-fixed qubits.
    UnsupportedMeasurementQubit(Qubit),
    /// The program already contains measurements on these qubits.
    ProgramContainsPreexistingMeasurements(Vec<Qubit>),
    /// The implicit unitary count could not be expressed as a `u8`.
    UnitaryCountU8Conversion(usize),
}

/// An error that may occur when laying out randomized measurements around a program.
#[derive(Debug)]
pub enum AppendToProgramError {
    /// The program already contains measurements on these qubits.
    ProgramContainsPreexistingMeasurements(Vec<Qubit>),
    /// An error occurred while validating the `choose_random_real_sub_regions` function.
    ChooseRandomRealSubRegions(random::Error),
}

/// An error that may occur when constructing the parameters of randomized measurements.
#[derive(Debug)]
pub enum ToParametersError {
    /// A seed value was not provided for a qubit.
    MissingSeed(Qubit),
}

/// A set of unitaries for randomized measurements: the size of the set and of each unitary's
/// representation, the parameters of the unitaries and the Quil instructions that realize
/// them.
pub trait UnitarySet {
    /// The number of unitaries in the set.
    spec fn spec_unitary_count(&self) -> usize;

    /// The number of parameters required to represent one unitary.
    spec fn spec_parameters_per_unitary(&self) -> usize;

    /// The number of unitaries in the set.
    fn unitary_count(&self) -> (count: usize)
        ensures
            count == self.spec_unitary_count(),
    ;

    /// The number of parameters required to represent a unitary within a set of Quil
    /// instructions.
    fn parameters_per_unitary(&self) -> (count: usize)
        ensures
            count == self.spec_parameters_per_unitary(),
    ;

    /// An instruction of the Quil program that plays the unitaries.
    type Instruction;

    /// The parameters of all the unitaries, as the bits of their real values, which the
    /// source region of the randomized measurements holds.
    fn to_parameters(&self) -> (parameters: Vec<u64>);

    /// The instructions that apply to each randomized qubit the unitary that its destination
    /// region selects.
    fn to_instructions(&self, qubit_randomizations: &[QubitRandomization]) -> (instructions: Vec<
        Self::Instruction,
    >);
}

/// The declarations and measurements required to randomize a single qubit.
#[derive(Debug)]
pub struct QubitRandomization {
    seed_declaration: Declaration,
    destination_declaration: Declaration,
    measurement: Measurement,
    qubit_index: u64,
}

impl QubitRandomization {
    /// The declaration of the region seeding this qubit's PRNG sequence.
    pub closed spec fn spec_seed_declaration(self) -> DeclarationView {
        self.seed_declaration@
    }

    /// The declaration of the region receiving this qubit's per-shot random rotation.
    pub closed spec fn spec_destination_declaration(self) -> DeclarationView {
        self.destination_declaration@
    }

    /// The measurement of this qubit.
    pub closed spec fn spec_measurement(self) -> MeasurementView {
        self.measurement@
    }

    /// The index of the qubit.
    pub closed spec fn spec_qubit_index(self) -> u64 {
        self.qubit_index
    }

    /// Return a reference to the declaration that will be used as the seed to the PRNG
    /// sequence for this qubit.
    pub fn get_seed_declaration(&self) -> (declaration: &Declaration)
        ensures
            declaration@ == self.spec_seed_declaration(),
    {
        &self.seed_declaration
    }

    /// Return a reference to the declaration that will hold the parameters that characterize
    /// the random rotation to be applied to this qubit on a per-shot basis.
    pub fn get_destination_declaration(&self) -> (declaration: &Declaration)
        ensures
            declaration@ == self.spec_destination_declaration(),
    {
        &self.destination_declaration
    }

    /// Get the measurement instruction that will be used to measure this qubit.
    pub fn get_measurement(&self) -> (measurement: &Measurement)
        ensures
            measurement@ == self.spec_measurement(),
    {
        &self.measurement
    }

    /// Get the index of the qubit that will be randomized.
    pub fn get_qubit_index(&self) -> (index: u64)
        ensures
            index == self.spec_qubit_index(),
    {
        self.qubit_index
    }
}

/// One part of a program with randomized measurements, in program order.
#[derive(Debug)]
pub enum ProgramSection {
    /// Declare a memory region.
    Declare(Declaration),
    /// Delay the given qubits by the configured leading delay.
    LeadingDelay(Vec<Qubit>),
    /// Declare `choose_random_real_sub_regions` as an externed function.
    PragmaExtern,
    /// Call `choose_random_real_sub_regions`.
    Call(ChooseRandomRealSubRegions),
    /// The body instructions of the target program.
    TargetBody,
    /// The instructions that play the drawn unitaries on each randomized qubit.
    UnitaryInstructions,
    /// A `FENCE` on all qubits.
    Fence,
    /// A measurement.
    Measure(Measurement),
}

/// Whether some qubit in `qubits` is `q`.
pub open spec fn lists_qubit(qubits: Seq<Qubit>, q: QubitView) -> bool {
    exists|k: int| 0 <= k < qubits.len() && (#[trigger] qubits[k])@ == q
}

/// Whether one of the first `bound` randomizations is of qubit `q`, and `q` is measured.
pub open spec fn conflicts_within(
    randomizations: Seq<QubitRandomization>,
    bound: int,
    measured: Seq<Qubit>,
    q: QubitView,
) -> bool {
    exists|a: int, j: int|
        0 <= a < bound && 0 <= j < measured.len() && (#[trigger] measured[j])@ == q && (
        #[trigger] randomizations[a]).spec_measurement().qubit == q
}

/// Whether `section` declares a region with the given value.
pub open spec fn declares(section: ProgramSection, declaration: DeclarationView) -> bool {
    match section {
        ProgramSection::Declare(d) => d@ == declaration,
        _ => false,
    }
}

/// Whether `section` is the leading delay on exactly the given qubits, in order.
pub open spec fn delays(section: ProgramSection, qubits: Seq<QubitView>) -> bool {
    match section {
        ProgramSection::LeadingDelay(delayed) => delayed@.len() == qubits.len() && forall|k: int|
            0 <= k < qubits.len() ==> (#[trigger] delayed@[k])@ == qubits[k],
        _ => false,
    }
}

/// Whether `section` calls `choose_random_real_sub_regions` with the given arguments.
pub open spec fn calls(
    section: ProgramSection,
    destination: Seq<char>,
    source: Seq<char>,
    sub_region_size: u64,
    seed: Seq<char>,
) -> bool {
    match section {
        ProgramSection::Call(call) => {
            &&& call.spec_destination() == destination
            &&& call.spec_source() == source
            &&& call.spec_sub_region_size() == sub_region_size
            &&& call.spec_seed() == seed
        },
        _ => false,
    }
}

/// Whether `section` is the given measurement.
pub open spec fn measures(section: ProgramSection, measurement: MeasurementView) -> bool {
    match section {
        ProgramSection::Measure(m) => m@ == measurement,
        _ => false,
    }
}

/// The values that one memory region is given when running randomized measurements.
#[derive(Debug)]
pub enum ParameterValues {
    /// The parameters of the unitary set.
    UnitarySet,
    /// The single value of a PRNG seed.
    Seed(PrngSeedValue),
    /// The given number of zeros.
    Zeros(usize),
}

/// The values to run a memory region with.
#[derive(Debug)]
pub struct ParameterAssignment {
    /// The name of the memory region.
    pub name: String,
    /// Its values.
    pub values: ParameterValues,
}

/// Configuration for adding randomized measurements to a Quil program.
#[derive(Debug)]
pub struct RandomizedMeasurements<U> {
    leading_delay: Expression,
    unitary_set: U,
    unitary_count_as_u8: u8,
    qubit_randomizations: Vec<QubitRandomization>,
    source_declaration: Declaration,
}

fn seed_region_name(qubit_index: u64) -> (name: String)
    ensures
        name@ == seed_name(qubit_index),
{
    let mut name = String::new();
    name.append(RANDOMIZED_MEASUREMENT_SEED_PREFIX);
    push_decimal(&mut name, qubit_index);
    name
}

fn destination_region_name(qubit_index: u64) -> (name: String)
    ensures
        name@ == destination_name(qubit_index),
{
    let mut name = String::new();
    name.append(RANDOMIZED_MEASUREMENT_DESTINATION_PREFIX);
    push_decimal(&mut name, qubit_index);
    name
}

/// Whether `qubit` occurs among the `measured` qubits.
fn contains_qubit(measured: &Vec<Qubit>, qubit: &Qubit) -> (found: bool)
    ensures
        found == exists|j: int| 0 <= j < measured@.len() && (#[trigger] measured@[j])@ == qubit@,
{
    let mut i: usize = 0;
    while i < measured.len()
        invariant
            i <= measured@.len(),
            forall|j: int| 0 <= j < i ==> (#[trigger] measured@[j])@ != qubit@,
        decreases measured@.len() - i,
    {
        if qubits_equal(&measured[i], qubit) {
            return true;
        }
        i = i + 1;
    }
    false
}

impl<U: UnitarySet> RandomizedMeasurements<U> {
    /// The randomization of each measured qubit, in the order of the measurements.
    pub closed spec fn spec_randomizations(self) -> Seq<QubitRandomization> {
        self.qubit_randomizations@
    }

    /// The declaration of the region holding the parameters of every unitary.
    pub closed spec fn spec_source_declaration(self) -> DeclarationView {
        self.source_declaration@
    }

    /// The number of unitaries in the set.
    pub closed spec fn spec_unitary_count_as_u8(self) -> u8 {
        self.unitary_count_as_u8
    }

    /// The unitary set.
    pub closed spec fn spec_unitary_set(self) -> U {
        self.unitary_set
    }

    /// The delay prepended to the program before the pulse program begins.
    pub closed spec fn spec_leading_delay(self) -> Expression {
        self.leading_delay
    }

    /// The randomization of each measured qubit, in the order of the measurements.
    pub fn qubit_randomizations(&self) -> (randomizations: &[QubitRandomization])
        ensures
            randomizations@ == self.spec_randomizations(),
    {
        self.qubit_randomizations.as_slice()
    }

    /// The delay prepended to the program before the pulse program begins.
    pub fn leading_delay(&self) -> (delay: &Expression)
        ensures
            *delay == self.spec_leading_delay(),
    {
        &self.leading_delay
    }

    /// The unitary set from which the random unitaries are drawn.
    pub fn unitary_set(&self) -> (unitary_set: &U)
        ensures
            *unitary_set == self.spec_unitary_set(),
    {
        &self.unitary_set
    }

    /// Initialize a new instance of [`RandomizedMeasurements`].
    ///
    /// # Parameters
    ///
    /// * `measurements` - A vector of measurements to randomize. Note, these
    ///     measurements should not be added to a program a priori.
    /// * `unitary_set` - The [`UnitarySet`] from which to draw and represent
    ///     randomly selected unitaries.
    /// * `leading_delay` - The delay to prepend to the program before the
    ///     pulse program begins.
    pub fn try_new(measurements: Vec<Measurement>, unitary_set: U, leading_delay: Expression) -> (result:
        Result<RandomizedMeasurements<U>, Error>)
        requires
            unitary_set.spec_parameters_per_unitary() * unitary_set.spec_unitary_count()
                <= usize::MAX,
        ensures
            result is Ok <==> all_fixed(measurements@) && unitary_set.spec_unitary_count() <= 255,
            !all_fixed(measurements@) ==> (result matches Err(
                Error::UnsupportedMeasurementQubit(qubit),
            ) && qubit@ == measurements@[first_unfixed(measurements@)].qubit@),
            all_fixed(measurements@) && unitary_set.spec_unitary_count() > 255 ==> (result matches Err(
                Error::UnitaryCountU8Conversion(count),
            ) && count == unitary_set.spec_unitary_count()),
            result matches Ok(randomized) ==> {
                &&& randomized.spec_unitary_set() == unitary_set
                &&& randomized.spec_leading_delay() == leading_delay
                &&& randomized.spec_unitary_count_as_u8() == unitary_set.spec_unitary_count()
                &&& randomized.spec_source_declaration() == DeclarationView {
                    name: RANDOMIZED_MEASUREMENT_SOURCE@,
                    size: Vector {
                        data_type: ScalarType::Real,
                        length: (unitary_set.spec_parameters_per_unitary()
                            * unitary_set.spec_unitary_count()) as u64,
                    },
                }
                &&& randomized.spec_randomizations().len() == measurements@.len()
                &&& forall|i: int|
                    0 <= i < measurements@.len() ==> {
                        let r = #[trigger] randomized.spec_randomizations()[i];
                        let q = measurements@[i].qubit->Fixed_0;
                        &&& r.spec_qubit_index() == q
                        &&& r.spec_measurement() == measurements@[i]@
                        &&& r.spec_seed_declaration() == DeclarationView {
                            name: seed_name(q),
                            size: Vector { data_type: ScalarType::Integer, length: 1 },
                        }
                        &&& r.spec_destination_declaration() == DeclarationView {
                            name: destination_name(q),
                            size: Vector {
                                data_type: ScalarType::Real,
                                length: unitary_set.spec_parameters_per_unitary() as u64,
                            },
                        }
                    }
            },
    {
        let mut source_name = String::new();
        source_name.append(RANDOMIZED_MEASUREMENT_SOURCE);
        let source_length = unitary_set.parameters_per_unitary() * unitary_set.unitary_count();
        let source_declaration = Declaration {
            name: source_name,
            size: Vector { data_type: ScalarType::Real, length: source_length as u64 },
        };
        let mut qubit_randomizations: Vec<QubitRandomization> = Vec::new();
        let mut i: usize = 0;
        while i < measurements.len()
            invariant
                i <= measurements@.len(),
                qubit_randomizations@.len() == i,
                forall|j: int| 0 <= j < i ==> (#[trigger] measurements@[j]).qubit is Fixed,
                forall|j: int|
                    0 <= j < i ==> {
                        let r = #[trigger] qubit_randomizations@[j];
                        let q = measurements@[j].qubit->Fixed_0;
                        &&& r.qubit_index == q
                        &&& r.measurement@ == measurements@[j]@
                        &&& r.seed_declaration@ == DeclarationView {
                            name: seed_name(q),
                            size: Vector { data_type: ScalarType::Integer, length: 1 },
                        }
                        &&& r.destination_declaration@ == DeclarationView {
                            name: destination_name(q),
                            size: Vector {
                                data_type: ScalarType::Real,
                                length: unitary_set.spec_parameters_per_unitary() as u64,
                            },
                        }
                    },
            decreases measurements@.len() - i,
        {
            let measurement = measurements[i].clone();
            let qubit_index = match &measurement.qubit {
                Qubit::Fixed(index) => *index,
                _ => {
                    proof {
                        assert(!all_fixed(measurements@));
                        lemma_first_unfixed(measurements@);
                        let k = first_unfixed(measurements@);
                        assert(k == i as int) by {
                            if k < i {
                                assert(measurements@[k].qubit is Fixed);
                            }
                        }
                    }
                    return Err(Error::UnsupportedMeasurementQubit(measurement.qubit));
                },
            };
            let randomization = QubitRandomization {
                seed_declaration: Declaration {
                    name: seed_region_name(qubit_index),
                    size: Vector { data_type: ScalarType::Integer, length: 1 },
                },
                destination_declaration: Declaration {
                    name: destination_region_name(qubit_index),
                    size: Vector {
                        data_type: ScalarType::Real,
                        length: unitary_set.parameters_per_unitary() as u64,
                    },
                },
                qubit_index,
                measurement,
            };
            qubit_randomizations.push(randomization);
            i = i + 1;
        }
        let unitary_count = unitary_set.unitary_count();
        if unitary_count > 255 {
            return Err(Error::UnitaryCountU8Conversion(unitary_count));
        }
        Ok(
            RandomizedMeasurements {
                leading_delay,
                unitary_set,
                unitary_count_as_u8: unitary_count as u8,
                qubit_randomizations,
                source_declaration,
            },
        )
    }

    /// Given a map of qubits to seed values, return the random indices that
    /// were drawn for each qubit during program execution.
    pub fn get_random_indices(
        &self,
        seed_values: &HashMap<u64, PrngSeedValue>,
        shot_count: u32,
    ) -> (indices: HashMap<u64, Vec<u8>>)
        requires
            shot_count == 0 || self.spec_unitary_count_as_u8() > 0 || seed_values@.dom()
                =~= Set::<u64>::empty(),
        ensures
            indices@.dom() == seed_values@.dom(),
            forall|qubit: u64| #[trigger]
                indices@.contains_key(qubit) ==> indices@[qubit]@ == drawn_indices(
                    seed_values@[qubit]@,
                    shot_count,
                    self.spec_unitary_count_as_u8(),
                ),
    {
        let mut result: HashMap<u64, Vec<u8>> = HashMap::new();
        let count = self.unitary_count_as_u8;
        for entry in it: seed_values.iter()
            invariant
                count == self.spec_unitary_count_as_u8(),
                shot_count == 0 || count > 0 || seed_values@.dom() =~= Set::<u64>::empty(),
                forall|qubit: u64| #[trigger]
                    result@.contains_key(qubit) <==> exists|j: int|
                        0 <= j < it.index() && *it.seq()[j].0 == qubit,
                forall|qubit: u64| #[trigger]
                    result@.contains_key(qubit) ==> seed_values@.contains_key(qubit)
                        && result@[qubit]@ == drawn_indices(
                        seed_values@[qubit]@,
                        shot_count,
                        count,
                    ),
                forall|qubit: u64| #[trigger]
                    seed_values@.contains_key(qubit) ==> it.seq().contains(
                        (&qubit, &seed_values@[qubit]),
                    ),
            ensures
                forall|qubit: u64| #[trigger]
                    seed_values@.contains_key(qubit) ==> result@.contains_key(qubit),
        {
            let (qubit, seed_value) = entry;
            proof {
                assert(seed_values@.contains_key(*qubit));
            }
            let drawn = random::choose_random_real_sub_region_indices(
                *seed_value,
                0,
                shot_count,
                count,
            );
            assert(drawn@ =~= drawn_indices(seed_value@, shot_count, count));
            result.insert(*qubit, drawn);
        }
        result
    }

    /// Given a map of qubits to seed values, the values of each memory region that
    /// randomizes measurements accordingly, in the order in which they are assigned.
    pub fn to_parameters(&self, seed_values: &HashMap<u64, PrngSeedValue>) -> (result: Result<
        Vec<ParameterAssignment>,
        ToParametersError,
    >)
        ensures
            result is Ok <==> forall|i: int|
                0 <= i < self.spec_randomizations().len() ==> seed_values@.contains_key(
                    (#[trigger] self.spec_randomizations()[i]).spec_qubit_index(),
                ),
            result matches Err(ToParametersError::MissingSeed(qubit)) ==> exists|i: int|
                0 <= i < self.spec_randomizations().len() && !seed_values@.contains_key(
                    (#[trigger] self.spec_randomizations()[i]).spec_qubit_index(),
                ) && qubit@ == self.spec_randomizations()[i].spec_measurement().qubit && forall|
                    j: int,
                |
                    0 <= j < i ==> seed_values@.contains_key(
                        (#[trigger] self.spec_randomizations()[j]).spec_qubit_index(),
                    ),
            result matches Ok(assignments) ==> {
                &&& assignments@.len() == 1 + 2 * self.spec_randomizations().len()
                &&& assignments@[0].name@ == RANDOMIZED_MEASUREMENT_SOURCE@
                &&& assignments@[0].values is UnitarySet
                &&& forall|i: int|
                    0 <= i < self.spec_randomizations().len() ==> {
                        let r = #[trigger] self.spec_randomizations()[i];
                        &&& assignments@[1 + 2 * i].name@ == r.spec_seed_declaration().name
                        &&& assignments@[1 + 2 * i].values == ParameterValues::Seed(
                            seed_values@[r.spec_qubit_index()],
                        )
                        &&& assignments@[2 + 2 * i].name@ == r.spec_destination_declaration().name
                        &&& assignments@[2 + 2 * i].values == ParameterValues::Zeros(
                            self.spec_unitary_set().spec_parameters_per_unitary(),
                        )
                    }
            },
    {
        let mut assignments: Vec<ParameterAssignment> = Vec::new();
        let mut source_name = String::new();
        source_name.append(RANDOMIZED_MEASUREMENT_SOURCE);
        assignments.push(ParameterAssignment { name: source_name, values: ParameterValues::UnitarySet });
        let mut i: usize = 0;
        while i < self.qubit_randomizations.len()
            invariant
                i <= self.spec_randomizations().len(),
                assignments@.len() == 1 + 2 * i,
                assignments@[0].name@ == RANDOMIZED_MEASUREMENT_SOURCE@,
                assignments@[0].values is UnitarySet,
                forall|j: int|
                    0 <= j < i ==> seed_values@.contains_key(
                        (#[trigger] self.spec_randomizations()[j]).spec_qubit_index(),
                    ),
                forall|j: int|
                    0 <= j < i ==> {
                        let r = #[trigger] self.spec_randomizations()[j];
                        &&& assignments@[1 + 2 * j].name@ == r.spec_seed_declaration().name
                        &&& assignments@[1 + 2 * j].values == ParameterValues::Seed(
                            seed_values@[r.spec_qubit_index()],
                        )
                        &&& assignments@[2 + 2 * j].name@ == r.spec_destination_declaration().name
                        &&& assignments@[2 + 2 * j].values == ParameterValues::Zeros(
                            self.spec_unitary_set().spec_parameters_per_unitary(),
                        )
                    },
            decreases self.spec_randomizations().len() - i,
        {
            let randomization = &self.qubit_randomizations[i];
            let seed_value = match seed_values.get(&randomization.qubit_index) {
                Some(seed_value) => *seed_value,
                None => {
                    return Err(ToParametersError::MissingSeed(randomization.measurement.qubit.clone()));
                },
            };
            assignments.push(
                ParameterAssignment {
                    name: randomization.seed_declaration.name.clone(),
                    values: ParameterValues::Seed(seed_value),
                },
            );
            assignments.push(
                ParameterAssignment {
                    name: randomization.destination_declaration.name.clone(),
                    values: ParameterValues::Zeros(self.unitary_set.parameters_per_unitary()),
                },
            );
            i = i + 1;
        }
        Ok(assignments)
    }

    /// The randomized qubits, in order.
    pub open spec fn spec_randomized_qubits(self) -> Seq<QubitView> {
        self.spec_randomizations().map_values(|r: QubitRandomization| r.spec_measurement().qubit)
    }

    /// Whether `section` is the one expected at position `k` of the layout built by
    /// [`Self::append_to_program`]: the source declaration; the destination and seed
    /// declarations of each qubit; the leading delay on all randomized qubits; the
    /// `PRAGMA EXTERN`; a call for each qubit; the target body; the unitary instructions;
    /// a `FENCE`; and the measurement of each qubit.
    pub open spec fn spec_expected_section(self, k: int, section: ProgramSection) -> bool {
        let r = self.spec_randomizations();
        let n = r.len() as int;
        let size = self.spec_unitary_set().spec_parameters_per_unitary() as u64;
        if k == 0 {
            declares(section, self.spec_source_declaration())
        } else if k <= 2 * n {
            if (k - 1) % 2 == 0 {
                declares(section, r[(k - 1) / 2].spec_destination_declaration())
            } else {
                declares(section, r[(k - 1) / 2].spec_seed_declaration())
            }
        } else if k == 2 * n + 1 {
            delays(section, self.spec_randomized_qubits())
        } else if k == 2 * n + 2 {
            section is PragmaExtern
        } else if k < 3 * n + 3 {
            calls(
                section,
                r[k - 2 * n - 3].spec_destination_declaration().name,
                self.spec_source_declaration().name,
                size,
                r[k - 2 * n - 3].spec_seed_declaration().name,
            )
        } else if k == 3 * n + 3 {
            section is TargetBody
        } else if k == 3 * n + 4 {
            section is UnitaryInstructions
        } else if k == 3 * n + 5 {
            section is Fence
        } else if k < 4 * n + 6 {
            measures(section, r[k - 3 * n - 6].spec_measurement())
        } else {
            false
        }
    }

    /// Whether some randomized qubit is already measured among `measured_qubits`.
    pub open spec fn spec_has_preexisting_measurement(self, measured_qubits: Seq<Qubit>) -> bool {
        exists|i: int, j: int|
            0 <= i < self.spec_randomizations().len() && 0 <= j < measured_qubits.len()
                && (#[trigger] measured_qubits[j])@ == (
            #[trigger] self.spec_randomizations()[i]).spec_measurement().qubit
    }

    /// The error, if any, of the `choose_random_real_sub_regions` call of randomization `i`.
    pub open spec fn spec_call_error(self, i: int) -> Option<random::Error> {
        sub_region_call_error(
            self.spec_randomizations()[i].spec_destination_declaration(),
            self.spec_source_declaration(),
            self.spec_unitary_set().spec_parameters_per_unitary() as u64,
        )
    }

    /// Lay out the randomized measurements around a Quil program whose body measures
    /// `measured_qubits`. The program must not already measure any randomized qubit; where it
    /// does, the error lists each such qubit once.
    ///
    /// The program, in order: the source declaration; the destination and seed declarations
    /// of each qubit; the leading delay on all randomized qubits; the `PRAGMA EXTERN` of
    /// `choose_random_real_sub_regions`; a call of it for each qubit; the body of the target
    /// program; the instructions playing the random unitaries; a `FENCE`; and the
    /// measurement of each qubit.
    pub fn append_to_program(&self, measured_qubits: &Vec<Qubit>) -> (result: Result<
        Vec<ProgramSection>,
        AppendToProgramError,
    >)
        ensures
            self.spec_has_preexisting_measurement(measured_qubits@) ==> (result matches Err(
                AppendToProgramError::ProgramContainsPreexistingMeasurements(qubits),
            ) && (forall|q: QubitView|
                #![trigger lists_qubit(qubits@, q)]
                #![trigger conflicts_within(self.spec_randomizations(), self.spec_randomizations().len() as int, measured_qubits@, q)]
                lists_qubit(qubits@, q) <==> conflicts_within(
                    self.spec_randomizations(),
                    self.spec_randomizations().len() as int,
                    measured_qubits@,
                    q,
                )) && (forall|a: int, b: int|
                0 <= a < b < qubits@.len() ==> (#[trigger] qubits@[a])@ != (#[trigger] qubits@[b])@)),
            !self.spec_has_preexisting_measurement(measured_qubits@) && (exists|i: int|
                0 <= i < self.spec_randomizations().len() && self.spec_call_error(i) is Some)
                ==> (result matches Err(AppendToProgramError::ChooseRandomRealSubRegions(e))
                && exists|i: int|
                0 <= i < self.spec_randomizations().len() && self.spec_call_error(i) == Some(e)
                && forall|j: int| 0 <= j < i ==> self.spec_call_error(j) is None),
            result is Ok <==> !self.spec_has_preexisting_measurement(measured_qubits@) && forall|
                i: int,
            |
                0 <= i < self.spec_randomizations().len() ==> self.spec_call_error(i) is None,
            result matches Ok(sections) ==> {
                &&& sections@.len() == 4 * self.spec_randomizations().len() + 6
                &&& forall|k: int|
                    0 <= k < sections@.len() ==> self.spec_expected_section(
                        k,
                        #[trigger] sections@[k],
                    )
            },
    {
        let ghost r = self.spec_randomizations();
        let n = self.qubit_randomizations.len();
        let mut conflicts: Vec<Qubit> = Vec::new();
        let mut i: usize = 0;
        while i < n
            invariant
                n == r.len(),
                r == self.spec_randomizations(),
                i <= n,
                forall|q: QubitView|
                    #![trigger lists_qubit(conflicts@, q)]
                    #![trigger conflicts_within(r, i as int, measured_qubits@, q)]
                    lists_qubit(conflicts@, q) <==> conflicts_within(r, i as int, measured_qubits@, q),
                forall|a: int, b: int|
                    0 <= a < b < conflicts@.len() ==> (#[trigger] conflicts@[a])@ != (
                    #[trigger] conflicts@[b])@,
            decreases n - i,
        {
            let qubit = &self.qubit_randomizations[i].measurement.qubit;
            let ghost prev = conflicts@;
            let found = contains_qubit(measured_qubits, qubit) && !contains_qubit(&conflicts, qubit);
            if found {
                conflicts.push(qubit.clone());
            }
            proof {
                assert forall|q: QubitView|
                    #![trigger lists_qubit(conflicts@, q)]
                    #![trigger conflicts_within(r, i + 1, measured_qubits@, q)]
                    lists_qubit(conflicts@, q) <==> conflicts_within(r, i + 1, measured_qubits@, q) by {
                    if lists_qubit(conflicts@, q) {
                        let k = choose|k: int|
                            0 <= k < conflicts@.len() && (#[trigger] conflicts@[k])@ == q;
                        if k < prev.len() {
                            assert(prev[k] == conflicts@[k]);
                            assert(lists_qubit(prev, q));
                        } else {
                            let j = choose|j: int|
                                0 <= j < measured_qubits@.len() && (
                                #[trigger] measured_qubits@[j])@ == qubit@;
                            assert(r[i as int].spec_measurement().qubit == q);
                        }
                    }
                    if conflicts_within(r, i + 1, measured_qubits@, q) {
                        let (a, j) = choose|a: int, j: int|
                            0 <= a < i + 1 && 0 <= j < measured_qubits@.len() && (
                            #[trigger] measured_qubits@[j])@ == q && (#[trigger] r[a]).spec_measurement().qubit
                            == q;
                        if a < i {
                            assert(conflicts_within(r, i as int, measured_qubits@, q));
                            let k = choose|k: int| 0 <= k < prev.len() && (#[trigger] prev[k])@ == q;
                            assert(conflicts@[k] == prev[k]);
                        } else if lists_qubit(prev, q) {
                            let k = choose|k: int| 0 <= k < prev.len() && (#[trigger] prev[k])@ == q;
                            assert(conflicts@[k] == prev[k]);
                        } else {
                            assert(found);
                            assert(conflicts@[prev.len() as int]@ == q);
                        }
                    }
                }
            }
            i = i + 1;
        }
        if conflicts.len() > 0 {
            proof {
                let q = conflicts@[0]@;
                assert(lists_qubit(conflicts@, q));
                assert(conflicts_within(r, n as int, measured_qubits@, q));
            }
            return Err(AppendToProgramError::ProgramContainsPreexistingMeasurements(conflicts));
        }
        assert(!self.spec_has_preexisting_measurement(measured_qubits@)) by {
            if self.spec_has_preexisting_measurement(measured_qubits@) {
                let (a, j) = choose|a: int, j: int|
                    0 <= a < self.spec_randomizations().len() && 0 <= j < measured_qubits@.len()
                        && (#[trigger] measured_qubits@[j])@ == (
                    #[trigger] self.spec_randomizations()[a]).spec_measurement().qubit;
                let q = measured_qubits@[j]@;
                assert(conflicts_within(r, n as int, measured_qubits@, q));
                assert(lists_qubit(conflicts@, q));
            }
        }
        let mut delayed: Vec<Qubit> = Vec::new();
        let mut i: usize = 0;
        while i < n
            invariant
                n == r.len(),
                r == self.spec_randomizations(),
                i <= n,
                delayed@.len() == i,
                forall|k: int|
                    0 <= k < i ==> (#[trigger] delayed@[k])@ == r[k].spec_measurement().qubit,
            decreases n - i,
        {
            delayed.push(self.qubit_randomizations[i].measurement.qubit.clone());
            i = i + 1;
        }
        assert(delays(ProgramSection::LeadingDelay(delayed), self.spec_randomized_qubits()));
        let parameters_per_unitary = self.unitary_set.parameters_per_unitary();
        let mut sections: Vec<ProgramSection> = Vec::new();
        sections.push(ProgramSection::Declare(self.source_declaration.clone()));
        let mut i: usize = 0;
        while i < n
            invariant
                n == r.len(),
                r == self.spec_randomizations(),
                i <= n,
                sections@.len() == 1 + 2 * i,
                forall|k: int|
                    0 <= k < sections@.len() ==> self.spec_expected_section(
                        k,
                        #[trigger] sections@[k],
                    ),
            decreases n - i,
        {
            let randomization = &self.qubit_randomizations[i];
            sections.push(ProgramSection::Declare(randomization.destination_declaration.clone()));
            sections.push(ProgramSection::Declare(randomization.seed_declaration.clone()));
            proof {
                let k1 = 1 + 2 * i as int;
                let k2 = 2 + 2 * i as int;
                assert((k1 - 1) / 2 == i as int && (k1 - 1) % 2 == 0);
                assert((k2 - 1) / 2 == i as int && (k2 - 1) % 2 == 1);
                assert(self.spec_expected_section(k1, sections@[k1]));
                assert(self.spec_expected_section(k2, sections@[k2]));
            }
            i = i + 1;
        }
        sections.push(ProgramSection::LeadingDelay(delayed));
        sections.push(ProgramSection::PragmaExtern);
        let mut i: usize = 0;
        while i < n
            invariant
                n == r.len(),
                r == self.spec_randomizations(),
                parameters_per_unitary == self.spec_unitary_set().spec_parameters_per_unitary(),
                !self.spec_has_preexisting_measurement(measured_qubits@),
                i <= n,
                sections@.len() == 3 + 2 * n + i,
                forall|k: int| 0 <= k < i ==> self.spec_call_error(k) is None,
                forall|k: int|
                    0 <= k < sections@.len() ==> self.spec_expected_section(
                        k,
                        #[trigger] sections@[k],
                    ),
            decreases n - i,
        {
            let randomization = &self.qubit_randomizations[i];
            let seed = MemoryReference { name: randomization.seed_declaration.name.clone(), index: 0 };
            match ChooseRandomRealSubRegions::try_new(
                &randomization.destination_declaration,
                &self.source_declaration,
                parameters_per_unitary as u64,
                &seed,
            ) {
                Ok(call) => {
                    sections.push(ProgramSection::Call(call));
                    assert(self.spec_expected_section(
                        3 + 2 * n + i,
                        sections@[3 + 2 * n + i],
                    ));
                },
                Err(e) => {
                    assert(self.spec_call_error(i as int) == Some(e));
                    return Err(AppendToProgramError::ChooseRandomRealSubRegions(e));
                },
            }
            i = i + 1;
        }
        sections.push(ProgramSection::TargetBody);
        sections.push(ProgramSection::UnitaryInstructions);
        sections.push(ProgramSection::Fence);
        let mut i: usize = 0;
        while i < n
            invariant
                n == r.len(),
                r == self.spec_randomizations(),
                i <= n,
                sections@.len() == 6 + 3 * n + i,
                forall|k: int|
                    0 <= k < sections@.len() ==> self.spec_expected_section(
                        k,
                        #[trigger] sections@[k],
                    ),
            decreases n - i,
        {
            sections.push(ProgramSection::Measure(self.qubit_randomizations[i].measurement.clone()));
            assert(self.spec_expected_section(6 + 3 * n + i, sections@[6 + 3 * n + i]));
            i = i + 1;
        }
        Ok(sections)
    }
}

/// Each randomized qubit draws its unitary from its own seed: in a program laid out by
/// [`RandomizedMeasurements::append_to_program`], the call placed for randomization `i` writes
/// to the destination region declared for that same randomization and reads the seed region
/// declared for it, which is declared in the program; and the parameters that
/// [`RandomizedMeasurements::to_parameters`] gives fill that region with the seed of that
/// randomization's qubit.
pub proof fn lemma_each_qubit_draws_from_its_own_seed<U: UnitarySet>(
    randomized: RandomizedMeasurements<U>,
    sections: Seq<ProgramSection>,
    assignments: Seq<ParameterAssignment>,
    seed_values: Map<u64, PrngSeedValue>,
    i: int,
)
    requires
        sections.len() == 4 * randomized.spec_randomizations().len() + 6,
        forall|k: int|
            0 <= k < sections.len() ==> randomized.spec_expected_section(k, #[trigger] sections[k]),
        assignments.len() == 1 + 2 * randomized.spec_randomizations().len(),
        forall|j: int|
            0 <= j < randomized.spec_randomizations().len() ==> {
                let r = #[trigger] randomized.spec_randomizations()[j];
                &&& assignments[1 + 2 * j].name@ == r.spec_seed_declaration().name
                &&& assignments[1 + 2 * j].values == ParameterValues::Seed(
                    seed_values[r.spec_qubit_index()],
                )
            },
        0 <= i < randomized.spec_randomizations().len(),
    ensures
        ({
            let n = randomized.spec_randomizations().len() as int;
            let r = randomized.spec_randomizations()[i];
            &&& sections[2 * n + 3 + i] matches ProgramSection::Call(call)
            &&& call.spec_seed() == r.spec_seed_declaration().name
            &&& call.spec_destination() == r.spec_destination_declaration().name
            &&& sections[2 + 2 * i] matches ProgramSection::Declare(declared)
            &&& declared@ == r.spec_seed_declaration()
            &&& assignments[1 + 2 * i].name@ == call.spec_seed()
            &&& assignments[1 + 2 * i].values == ParameterValues::Seed(
                seed_values[r.spec_qubit_index()],
            )
        }),
{
    let n = randomized.spec_randomizations().len() as int;
    assert(randomized.spec_expected_section(2 * n + 3 + i, sections[2 * n + 3 + i]));
    assert(randomized.spec_expected_section(2 + 2 * i, sections[2 + 2 * i]));
    assert((2 + 2 * i - 1) % 2 == 1 && (2 + 2 * i - 1) / 2 == i) by (nonlinear_arith)
        requires
            0 <= i,
    ;
    let r = randomized.spec_randomizations()[i];
    assert(randomized.spec_randomizations()[i] == r);
}

} // verus!