//! This module supports low-level primitives for randomization on Rigetti's QPUs.
use vstd::prelude::*;

use crate::quil::{Declaration, DeclarationView, MemoryReference, ScalarType};
use quil_rs::instruction::{
    ExternError, ExternParameter, ExternParameterType, ExternSignature, Pragma, PragmaArgument,
    ScalarType as QuilScalarType, RESERVED_PRAGMA_EXTERN,
};
use quil_rs::quil::{Quil, ToQuilError};

verus! {

/// Hardware values are 48 bits long.
pub const MAX_SEQUENCER_VALUE: u64 = 0x0000_FFFF_FFFF_FFFF;

/// Hardware multiplication currently uses the lower 16 bits of
/// the PRNG value.
pub const MAX_UNSIGNED_MULTIPLIER: u64 = 0x0000_0000_0000_FFFF;

/// Bit number `tap` (0-based) of `seed`, as `0` or `1`.
pub open spec fn tap_bit(seed: u64, tap: u32) -> u64 {
    if seed & (1u64 << tap) != 0 {
        1
    } else {
        0
    }
}

/// The exclusive-or of the bits of `seed` at each of the `taps`, folded from the first tap.
pub open spec fn feedback(seed: u64, taps: Seq<u32>) -> u64
    decreases taps.len(),
{
    if taps.len() == 0 {
        0
    } else {
        feedback(seed, taps.drop_last()) ^ tap_bit(seed, taps.last())
    }
}

/// One step of a 48-bit linear feedback shift register with the given taps: the register is
/// shifted left by one, truncated to 48 bits, and the feedback bit enters at the bottom.
pub open spec fn lfsr_step(seed: u64, taps: Seq<u32>) -> u64 {
    ((seed << 1) & MAX_SEQUENCER_VALUE) | feedback(seed, taps)
}

/// One step of the LFSR implemented on Rigetti control systems: 48 bits, with taps at
/// the 0-based indices 47, 46, 20 and 19.
pub open spec fn lfsr_v1_step(seed: u64) -> u64 {
    ((seed << 1) & MAX_SEQUENCER_VALUE) | (tap_bit(seed, 47) ^ tap_bit(seed, 46) ^ tap_bit(
        seed,
        20,
    ) ^ tap_bit(seed, 19))
}

/// The register after `n` steps of [`lfsr_v1_step`] from `seed`.
pub open spec fn lfsr_v1_iterate(seed: u64, n: nat) -> u64
    decreases n,
{
    if n == 0 {
        seed
    } else {
        lfsr_v1_step(lfsr_v1_iterate(seed, (n - 1) as nat))
    }
}

/// The sub-region index that the control system derives from a PRNG value.
pub open spec fn sub_region_index(value: u64, sub_region_count: u8) -> u8 {
    ((value & MAX_UNSIGNED_MULTIPLIER) % (sub_region_count as u64)) as u8
}

/// The feedback of any set of taps is a single bit.
pub proof fn lemma_feedback_is_bit(seed: u64, taps: Seq<u32>)
    ensures
        feedback(seed, taps) <= 1,
    decreases taps.len(),
{
    if taps.len() > 0 {
        lemma_feedback_is_bit(seed, taps.drop_last());
        let a = feedback(seed, taps.drop_last());
        let b = tap_bit(seed, taps.last());
        assert(a ^ b <= 1) by (bit_vector)
            requires
                a <= 1,
                b <= 1,
        ;
    }
}

/// The generic LFSR step with the taps `[47, 46, 20, 19]` is the Rigetti control-system LFSR.
pub proof fn lemma_v1_taps(seed: u64)
    ensures
        lfsr_step(seed, seq![47u32, 46u32, 20u32, 19u32]) == lfsr_v1_step(seed),
{
    let t4 = seq![47u32, 46u32, 20u32, 19u32];
    let t3 = seq![47u32, 46u32, 20u32];
    let t2 = seq![47u32, 46u32];
    let t1 = seq![47u32];
    let t0 = Seq::<u32>::empty();
    assert(t4.drop_last() =~= t3);
    assert(t3.drop_last() =~= t2);
    assert(t2.drop_last() =~= t1);
    assert(t1.drop_last() =~= t0);
    let b47 = tap_bit(seed, 47);
    assert(feedback(seed, t0) == 0);
    assert(feedback(seed, t1) == 0u64 ^ b47);
    assert(0u64 ^ b47 == b47) by (bit_vector);
    assert(feedback(seed, t2) == b47 ^ tap_bit(seed, 46));
    assert(feedback(seed, t3) == b47 ^ tap_bit(seed, 46) ^ tap_bit(seed, 20));
    assert(feedback(seed, t4) == b47 ^ tap_bit(seed, 46) ^ tap_bit(seed, 20) ^ tap_bit(seed, 19));
}

/// Hardware values are 48 bits long: every LFSR value fits in [`MAX_SEQUENCER_VALUE`].
pub proof fn lemma_lfsr_step_in_range(seed: u64, taps: Seq<u32>)
    ensures
        lfsr_step(seed, taps) <= MAX_SEQUENCER_VALUE,
{
    lemma_feedback_is_bit(seed, taps);
    let b = feedback(seed, taps);
    assert((((seed << 1) & 0x0000_FFFF_FFFF_FFFFu64) | b) <= 0x0000_FFFF_FFFF_FFFFu64)
        by (bit_vector)
        requires
            b <= 1,
    ;
}

/// A parameter of an externed function, as quil-rs describes it.
#[verifier::external_type_specification]
#[verifier::external_body]
pub struct ExExternParameter(ExternParameter);

/// The signature of an externed function, as quil-rs describes it.
#[verifier::external_type_specification]
#[verifier::external_body]
pub struct ExExternSignature(ExternSignature);

/// An error of quil-rs about an extern signature.
#[verifier::external_type_specification]
#[verifier::external_body]
pub struct ExExternError(ExternError);

/// An error of quil-rs about writing Quil.
#[verifier::external_type_specification]
#[verifier::external_body]
pub struct ExToQuilError(ToQuilError);

/// A `PRAGMA` instruction, as quil-rs describes it.
#[verifier::external_type_specification]
#[verifier::external_body]
pub struct ExPragma(Pragma);

/// An error that may occur using the randomization primitives defined
/// in this module.
#[derive(Debug, PartialEq)]
pub enum Error {
    /// An invalid seed value was provided.
    InvalidSeed(u64),
    /// An error occurred while converting to Quil.
    ToQuilError(ToQuilError),
    /// An error occurred while constructing an extern signature.
    ExternSignatureError(ExternError),
    /// The destination must be a `REAL[]`.
    InvalidDestinationType {
        /// The type on the destination declaration.
        destination_type: ScalarType,
    },
    /// The source must be a `REAL[]`.
    InvalidSourceType {
        /// The type on the source declaration.
        source_type: ScalarType,
    },
    /// The destination length must be in range `[0, 2^53 - 1]` and divisible by the
    /// sub-region size.
    InvalidDestinationLength {
        /// The length of the destination declaration.
        destination_length: u64,
        /// The size of each sub-region in source and destination memory arrays.
        sub_region_size: u64,
    },
    /// The source length must be in range `[0, 2^53 - 1]` and divisible by the
    /// sub-region size.
    InvalidSourceLength {
        /// The length of the source declaration.
        source_length: u64,
        /// The size of each sub-region in source and destination memory arrays.
        sub_region_size: u64,
    },
}

/// The largest integer up to which every integer is exactly representable as an `f64`.
pub const MAX_EXACT_F64_INTEGER: u64 = 0x001F_FFFF_FFFF_FFFF;

/// A memory length accepted for sub-region selection: within `[0, 2^53 - 1]` and an exact
/// multiple of a (non-zero) sub-region size.
pub open spec fn length_divisible(length: u64, sub_region_size: u64) -> bool {
    &&& length <= MAX_EXACT_F64_INTEGER
    &&& sub_region_size != 0
    &&& length % sub_region_size == 0
}

/// The error, if any, of choosing random sub-regions of `source` into `destination`.
pub open spec fn sub_region_call_error(
    destination: DeclarationView,
    source: DeclarationView,
    sub_region_size: u64,
) -> Option<Error> {
    if destination.size.data_type != ScalarType::Real {
        Some(Error::InvalidDestinationType { destination_type: destination.size.data_type })
    } else if source.size.data_type != ScalarType::Real {
        Some(Error::InvalidSourceType { source_type: source.size.data_type })
    } else if !length_divisible(destination.size.length, sub_region_size) {
        Some(
            Error::InvalidDestinationLength {
                destination_length: destination.size.length,
                sub_region_size,
            },
        )
    } else if !length_divisible(source.size.length, sub_region_size) {
        Some(Error::InvalidSourceLength { source_length: source.size.length, sub_region_size })
    } else {
        None
    }
}

/// Whether `length` is accepted for sub-regions of `sub_region_size`.
fn is_length_divisible(length: u64, sub_region_size: u64) -> (divisible: bool)
    ensures
        divisible == length_divisible(length, sub_region_size),
{
    length <= MAX_EXACT_F64_INTEGER && sub_region_size != 0 && length % sub_region_size == 0
}

/// An externed call that may be used to select one or more random
/// sub-regions from a source array of real values to a destination array.
#[derive(Debug, Clone, PartialEq, Eq)]
pub struct ChooseRandomRealSubRegions {
    destination_memory_region_name: String,
    source_memory_region_name: String,
    sub_region_size: u64,
    seed_memory_region_name: String,
}

impl ChooseRandomRealSubRegions {
    /// The name of the function referenced by the `PRAGMA EXTERN` and `CALL` instructions.
    pub const EXTERN_NAME: &'static str = "choose_random_real_sub_regions";

    /// The name of the destination array.
    pub closed spec fn spec_destination(self) -> Seq<char> {
        self.destination_memory_region_name@
    }

    /// The name of the source array.
    pub closed spec fn spec_source(self) -> Seq<char> {
        self.source_memory_region_name@
    }

    /// The size of each sub-region.
    pub closed spec fn spec_sub_region_size(self) -> u64 {
        self.sub_region_size
    }

    /// The name of the seed memory region.
    pub closed spec fn spec_seed(self) -> Seq<char> {
        self.seed_memory_region_name@
    }

    /// Create a new instance of [`ChooseRandomRealSubRegions`].
    ///
    /// # Parameters
    ///
    /// * `destination` - The name of the destination array.
    /// * `source` - The identifier of the source array.
    /// * `sub_region_size` - The size of the sub-regions to select from
    ///   the source array. Note, `len(source) % sub_region_size` and
    ///   `len(destination) % sub_region_size` must be zero.
    /// * `seed` - The name of the seed value.
    ///
    /// The values provided for `destination`, `source`, and `seed` must
    /// be declared within the Quil program where the call is made.
    pub fn try_new(
        destination: &Declaration,
        source: &Declaration,
        sub_region_size: u64,
        seed: &MemoryReference,
    ) -> (result: Result<Self, Error>)
        ensures
            match sub_region_call_error(destination@, source@, sub_region_size) {
                Some(e) => result == Err::<Self, Error>(e),
                None => result matches Ok(call) && {
                    &&& call.spec_destination() == destination.name@
                    &&& call.spec_source() == source.name@
                    &&& call.spec_sub_region_size() == sub_region_size
                    &&& call.spec_seed() == seed.name@
                },
            },
    {
        if !matches!(destination.size.data_type, ScalarType::Real) {
            return Err(Error::InvalidDestinationType { destination_type: destination.size.data_type });
        }
        if !matches!(source.size.data_type, ScalarType::Real) {
            return Err(Error::InvalidSourceType { source_type: source.size.data_type });
        }
        if !is_length_divisible(destination.size.length, sub_region_size) {
            return Err(
                Error::InvalidDestinationLength {
                    destination_length: destination.size.length,
                    sub_region_size,
                },
            );
        }
        if !is_length_divisible(source.size.length, sub_region_size) {
            return Err(
                Error::InvalidSourceLength { source_length: source.size.length, sub_region_size },
            );
        }
        Ok(
            Self {
                destination_memory_region_name: destination.name.clone(),
                source_memory_region_name: source.name.clone(),
                sub_region_size,
                seed_memory_region_name: seed.name.clone(),
            },
        )
    }

    /// The name of the destination array.
    pub fn destination_memory_region_name(&self) -> (name: &String)
        ensures
            name@ == self.spec_destination(),
    {
        &self.destination_memory_region_name
    }

    /// The name of the source array.
    pub fn source_memory_region_name(&self) -> (name: &String)
        ensures
            name@ == self.spec_source(),
    {
        &self.source_memory_region_name
    }

    /// The size of each sub-region.
    pub fn sub_region_size(&self) -> (size: u64)
        ensures
            size == self.spec_sub_region_size(),
    {
        self.sub_region_size
    }

    /// The name of the seed memory region.
    pub fn seed_memory_region_name(&self) -> (name: &String)
        ensures
            name@ == self.spec_seed(),
    {
        &self.seed_memory_region_name
    }
}

/// Whether a parameter of an externed function takes one value or a vector of any length.
#[derive(Debug, Clone, Copy, PartialEq, Eq)]
pub enum ParameterShape {
    /// One value.
    Scalar,
    /// A vector of any length.
    VariableLengthVector,
}

/// What quil-rs's `ExternParameter::try_new` gives for a parameter.
pub uninterp spec fn extern_parameter_of(
    name: Seq<char>,
    mutable: bool,
    data_type: ScalarType,
    shape: ParameterShape,
) -> Result<ExternParameter, ExternError>;

/// Calls quil-rs's `ExternParameter::try_new`, which fails where the name is not a valid
/// user identifier; the result depends on the arguments alone.
#[verifier::external_body]
fn extern_parameter(name: &str, mutable: bool, data_type: ScalarType, shape: ParameterShape) -> (parameter:
    Result<ExternParameter, ExternError>)
    ensures
        parameter == extern_parameter_of(name@, mutable, data_type, shape),
{
    let scalar = match data_type {
        ScalarType::Bit => QuilScalarType::Bit,
        ScalarType::Integer => QuilScalarType::Integer,
        ScalarType::Octet => QuilScalarType::Octet,
        ScalarType::Real => QuilScalarType::Real,
    };
    let parameter_type = match shape {
        ParameterShape::Scalar => ExternParameterType::Scalar(scalar),
        ParameterShape::VariableLengthVector => ExternParameterType::VariableLengthVector(scalar),
    };
    ExternParameter::try_new(name.to_owned(), mutable, parameter_type)
}

/// What quil-rs's `ExternSignature::new` gives for parameters and no return type.
pub uninterp spec fn extern_signature_of(parameters: Seq<ExternParameter>) -> ExternSignature;

/// Calls quil-rs's `ExternSignature::new` with no return type; the signature depends on the
/// parameters alone.
#[verifier::external_body]
pub(crate) fn extern_signature(parameters: Vec<ExternParameter>) -> (signature: ExternSignature)
    ensures
        signature == extern_signature_of(parameters@),
{
    ExternSignature::new(None, parameters)
}

/// What quil-rs's `to_quil` gives for an extern signature, by the text's view.
pub uninterp spec fn signature_quil_of(signature: ExternSignature) -> Result<Seq<char>, ToQuilError>;

/// The view of a text or an error.
pub open spec fn text_result<E>(result: Result<String, E>) -> Result<Seq<char>, E> {
    match result {
        Ok(text) => Ok(text@),
        Err(error) => Err(error),
    }
}

/// Calls quil-rs's `Quil::to_quil` on an extern signature; the text depends on the signature
/// alone.
#[verifier::external_body]
pub(crate) fn signature_quil(signature: &ExternSignature) -> (text: Result<String, ToQuilError>)
    ensures
        text_result(text) == signature_quil_of(*signature),
{
    signature.to_quil()
}

/// What quil-rs's `Pragma::new` gives for a `PRAGMA EXTERN` of a function with a signature.
pub uninterp spec fn extern_pragma_of(function: Seq<char>, signature: Seq<char>) -> Pragma;

/// Calls quil-rs's `Pragma::new` with the name `EXTERN`, the function's name as the one
/// argument, and the signature as the data; the pragma depends on these alone.
#[verifier::external_body]
pub(crate) fn extern_pragma(function: &str, signature: String) -> (pragma: Pragma)
    ensures
        pragma == extern_pragma_of(function@, signature@),
{
    Pragma::new(
        RESERVED_PRAGMA_EXTERN.to_owned(),
        vec![PragmaArgument::Identifier(function.to_owned())],
        Some(signature),
    )
}

/// The parameters of `choose_random_real_sub_regions`, in order: a mutable `REAL[]`
/// destination, a `REAL[]` source, an `INTEGER` sub-region size and a mutable `INTEGER` seed;
/// or the first error that building one gives.
pub open spec fn signature_parameters() -> Result<Seq<ExternParameter>, ExternError> {
    match extern_parameter_of("destination"@, true, ScalarType::Real, ParameterShape::VariableLengthVector) {
        Err(e) => Err(e),
        Ok(destination) => match extern_parameter_of("source"@, false, ScalarType::Real, ParameterShape::VariableLengthVector) {
            Err(e) => Err(e),
            Ok(source) => match extern_parameter_of("sub_region_size"@, false, ScalarType::Integer, ParameterShape::Scalar) {
                Err(e) => Err(e),
                Ok(size) => match extern_parameter_of("seed"@, true, ScalarType::Integer, ParameterShape::Scalar) {
                    Err(e) => Err(e),
                    Ok(seed) => Ok(seq![destination, source, size, seed]),
                },
            },
        },
    }
}

/// The parameters of `choose_random_real_sub_regions`, built with quil-rs.
pub(crate) fn choose_random_parameters() -> (parameters: Result<Vec<ExternParameter>, ExternError>)
    ensures
        match signature_parameters() {
            Ok(built) => parameters is Ok && parameters->Ok_0@ == built,
            Err(e) => parameters == Err::<Vec<ExternParameter>, ExternError>(e),
        },
{
    let destination = extern_parameter(
        "destination",
        true,
        ScalarType::Real,
        ParameterShape::VariableLengthVector,
    )?;
    let source = extern_parameter(
        "source",
        false,
        ScalarType::Real,
        ParameterShape::VariableLengthVector,
    )?;
    let size = extern_parameter("sub_region_size", false, ScalarType::Integer, ParameterShape::Scalar)?;
    let seed = extern_parameter("seed", true, ScalarType::Integer, ParameterShape::Scalar)?;
    let parameters = vec![destination, source, size, seed];
    assert(parameters@ =~= seq![destination, source, size, seed]);
    Ok(parameters)
}

/// The signature of `choose_random_real_sub_regions`, or the error that building it gives.
pub open spec fn choose_random_signature() -> Result<ExternSignature, Error> {
    match signature_parameters() {
        Ok(parameters) => Ok(extern_signature_of(parameters)),
        Err(e) => Err(Error::ExternSignatureError(e)),
    }
}

impl ChooseRandomRealSubRegions {
    /// Build the signature for the `PRAGMA EXTERN choose_random_real_sub_regions` instruction.
    /// The signature expressed in Quil is as follows:
    ///
    /// ```text
    /// "(destination : mut REAL[], source : REAL[], sub_region_size : INTEGER, seed : mut INTEGER)"
    /// ```
    pub fn build_signature() -> (signature: Result<ExternSignature, Error>)
        ensures
            signature == choose_random_signature(),
    {
        match choose_random_parameters() {
            Ok(parameters) => Ok(extern_signature(parameters)),
            Err(e) => Err(Error::ExternSignatureError(e)),
        }
    }

    /// Build a `PRAGMA EXTERN` instruction for the externed function: its name and the Quil
    /// text of its signature.
    pub fn pragma_extern() -> (pragma: Result<Pragma, Error>)
        ensures
            match choose_random_signature() {
                Ok(signature) => match signature_quil_of(signature) {
                    Ok(text) => pragma == Ok::<Pragma, Error>(
                        extern_pragma_of("choose_random_real_sub_regions"@, text),
                    ),
                    Err(e) => pragma == Err::<Pragma, Error>(Error::ToQuilError(e)),
                },
                Err(e) => pragma == Err::<Pragma, Error>(e),
            },
    {
        let signature = Self::build_signature()?;
        let text = match signature_quil(&signature) {
            Ok(text) => text,
            Err(e) => {
                return Err(Error::ToQuilError(e));
            },
        };
        proof {
            reveal_strlit("choose_random_real_sub_regions");
        }
        Ok(extern_pragma(Self::EXTERN_NAME, text))
    }
}

/// A valid seed value that may be used to initialize the PRNG. Such
/// values are in the range `[1, MAX_SEQUENCER_VALUE]` and are losslessly
/// convertible to `f64`.
#[derive(Debug, Clone, Copy)]
pub struct PrngSeedValue {
    u64_value: u64,
}

impl View for PrngSeedValue {
    type V = u64;

    closed spec fn view(&self) -> u64 {
        self.u64_value
    }
}

impl PrngSeedValue {
    #[verifier::type_invariant]
    spec fn in_range(self) -> bool {
        1 <= self.u64_value <= MAX_SEQUENCER_VALUE
    }

    /// Attempt to create a new instance of `PrngSeedValue` from a `u64`.
    /// The value must be in the range `[1, MAX_SEQUENCER_VALUE]`; every such value is
    /// losslessly convertible to `f64`.
    pub fn try_new(value: u64) -> (result: Result<Self, Error>)
        ensures
            result is Ok <==> 1 <= value <= MAX_SEQUENCER_VALUE,
            result matches Ok(seed) ==> seed@ == value,
            result matches Err(e) ==> e == Error::InvalidSeed(value),
    {
        if value < 1 || value > MAX_SEQUENCER_VALUE {
            return Err(Error::InvalidSeed(value));
        }
        Ok(Self { u64_value: value })
    }

    /// The seed as an unsigned integer; it lies in `[1, MAX_SEQUENCER_VALUE]`.
    pub fn as_u64(&self) -> (value: u64)
        ensures
            value == self@,
            1 <= value <= MAX_SEQUENCER_VALUE,
    {
        proof {
            use_type_invariant(self);
        }
        self.u64_value
    }
}

/// Advance a 48-bit LFSR with the given 0-based taps by one step.
fn lfsr_next(seed: u64, taps: &[u32]) -> (next: u64)
    requires
        forall|i: int| 0 <= i < taps@.len() ==> taps@[i] < 64,
    ensures
        next == lfsr_step(seed, taps@),
{
    let mut feedback_value: u64 = 0;
    let mut i: usize = 0;
    while i < taps.len()
        invariant
            0 <= i <= taps@.len(),
            forall|j: int| 0 <= j < taps@.len() ==> taps@[j] < 64,
            feedback_value == feedback(seed, taps@.take(i as int)),
        decreases taps@.len() - i,
    {
        let tap = taps[i];
        let base = 1u64 << tap;
        let bit: u64 = if (seed & base) != 0 {
            1
        } else {
            0
        };
        feedback_value = feedback_value ^ bit;
        assert(taps@.take(i + 1).drop_last() =~= taps@.take(i as int));
        i = i + 1;
    }
    assert(taps@.take(taps@.len() as int) =~= taps@);
    ((seed << 1) & MAX_SEQUENCER_VALUE) | feedback_value
}

/// One step of the control-system LFSR on a raw 64-bit register value.
fn lfsr_v1_step_exec(seed: u64) -> (next: u64)
    ensures
        next == lfsr_v1_step(seed),
{
    let taps: [u32; 4] = [47, 46, 20, 19];
    assert(taps@ =~= seq![47u32, 46u32, 20u32, 19u32]);
    proof {
        lemma_v1_taps(seed);
    }
    lfsr_next(seed, &taps)
}

/// This represents the [linear feedback shift
/// register](https://en.wikipedia.org/wiki/Linear-feedback_shift_register)
/// currently implemented on Rigetti control systems. Specifically,
/// it implements a 48-bit LFSR with taps at 0-based indices 47, 46, 20, and 19.
/// The taps have been shown to produce maximal sequence lengths for 48-bit strings.
pub fn lfsr_v1_next(seed: PrngSeedValue) -> (next: u64)
    ensures
        next == lfsr_v1_step(seed@),
        next <= MAX_SEQUENCER_VALUE,
{
    proof {
        lemma_v1_taps(seed@);
        lemma_lfsr_step_in_range(seed@, seq![47u32, 46u32, 20u32, 19u32]);
    }
    lfsr_v1_step_exec(seed.as_u64())
}

/// The values of the control-system LFSR started at `seed` (truncated to 48 bits), from step
/// `start + 1` to step `start + length`.
pub open spec fn lfsr_v1_sequence(seed: u64, start: nat, length: nat) -> Seq<u64> {
    Seq::new(length, |k: int| lfsr_v1_iterate(seed & MAX_SEQUENCER_VALUE, (start + k + 1) as nat))
}

proof fn lemma_iterate_from_next(seed: u64, n: nat)
    ensures
        lfsr_v1_iterate(seed, n + 1) == lfsr_v1_iterate(lfsr_v1_step(seed), n),
    decreases n,
{
    if n > 0 {
        let previous = (n - 1) as nat;
        lemma_iterate_from_next(seed, previous);
        assert(previous + 1 == n);
        assert(lfsr_v1_iterate(seed, n + 1) == lfsr_v1_step(lfsr_v1_iterate(seed, n)));
        assert(lfsr_v1_iterate(lfsr_v1_step(seed), n) == lfsr_v1_step(
            lfsr_v1_iterate(lfsr_v1_step(seed), previous),
        ));
    } else {
        assert(lfsr_v1_iterate(seed, 1) == lfsr_v1_step(lfsr_v1_iterate(seed, 0)));
    }
}

/// A sequence of the LFSR splits at any point: the first `n + m` values from `start` are the
/// first `n` from `start` followed by the first `m` from `start + n`.
pub proof fn lemma_lfsr_sequence_splits(seed: u64, start: nat, n: nat, m: nat)
    ensures
        lfsr_v1_sequence(seed, start, n + m) == lfsr_v1_sequence(seed, start, n)
            + lfsr_v1_sequence(seed, start + n, m),
{
    assert(lfsr_v1_sequence(seed, start, n + m) =~= lfsr_v1_sequence(seed, start, n)
        + lfsr_v1_sequence(seed, start + n, m));
}

/// Starting a sequence one step later is starting it from the next value of the LFSR: the
/// values from `start + 1` from `seed` are those from `start` from one LFSR step of the seed
/// (truncated to 48 bits).
pub proof fn lemma_lfsr_sequence_shifts(seed: u64, start: nat, length: nat)
    ensures
        lfsr_v1_sequence(seed, start + 1, length) == lfsr_v1_sequence(
            lfsr_v1_step(seed & MAX_SEQUENCER_VALUE),
            start,
            length,
        ),
{
    let first = seed & MAX_SEQUENCER_VALUE;
    let next = lfsr_v1_step(first);
    lemma_v1_taps(first);
    lemma_lfsr_step_in_range(first, seq![47u32, 46u32, 20u32, 19u32]);
    assert(next & 0x0000_FFFF_FFFF_FFFFu64 == next) by (bit_vector)
        requires
            next <= 0x0000_FFFF_FFFF_FFFFu64,
    ;
    assert forall|k: int| 0 <= k < length implies #[trigger] lfsr_v1_sequence(
        seed,
        start + 1,
        length,
    )[k] == lfsr_v1_sequence(next, start, length)[k] by {
        lemma_iterate_from_next(first, (start + k + 1) as nat);
    }
    assert(lfsr_v1_sequence(seed, start + 1, length) =~= lfsr_v1_sequence(next, start, length));
}

/// The values of the control-system LFSR started at `seed` (truncated to 48 bits), from
/// step `start_index + 1` to step `start_index + series_length`.
pub fn generate_lfsr_v1_sequence(seed: u64, start_index: u32, series_length: u32) -> (sequence:
    Vec<u64>)
    requires
        start_index + series_length <= u32::MAX,
    ensures
        sequence@.len() == series_length,
        forall|k: int|
            0 <= k < series_length ==> #[trigger] sequence@[k] == lfsr_v1_iterate(
                seed & MAX_SEQUENCER_VALUE,
                (start_index + k + 1) as nat,
            ),
        sequence@ == lfsr_v1_sequence(seed, start_index as nat, series_length as nat),
{
    let ghost initial = seed & MAX_SEQUENCER_VALUE;
    let mut lfsr = seed & MAX_SEQUENCER_VALUE;
    let end = start_index + series_length;
    let mut collection: Vec<u64> = Vec::new();
    let mut i: u32 = 0;
    while i < end
        invariant
            end == start_index + series_length,
            i <= end,
            lfsr == lfsr_v1_iterate(initial, i as nat),
            collection@.len() == (if i <= start_index {
                0
            } else {
                i - start_index
            }),
            forall|k: int|
                0 <= k < collection@.len() ==> #[trigger] collection@[k] == lfsr_v1_iterate(
                    initial,
                    (start_index + k + 1) as nat,
                ),
        decreases end - i,
    {
        lfsr = lfsr_v1_step_exec(lfsr);
        assert(lfsr == lfsr_v1_iterate(initial, (i + 1) as nat));
        if start_index <= i && i < end {
            collection.push(lfsr);
        }
        i = i + 1;
    }
    assert(collection@ =~= lfsr_v1_sequence(seed, start_index as nat, series_length as nat));
    collection
}

/// Map a PRNG value to a sub-region index, as the control system does.
fn prng_value_to_sub_region_index(value: u64, sub_region_count: u8) -> (index: u8)
    requires
        sub_region_count > 0,
    ensures
        index == sub_region_index(value, sub_region_count),
        index < sub_region_count,
{
    let reduced = (value & MAX_UNSIGNED_MULTIPLIER) % (sub_region_count as u64);
    reduced as u8
}

/// Given a seed, start index, series length, and sub-region count, this function
/// will generate and return the sequence of pseudo-randomly chosen indices on
/// the Rigetti control systems.
///
/// For instance, if the following Quil program is run for 100 shots:
///
/// ```quil
/// # presumed sub-region size is 3.
/// DECLARE destination REAL[6] # prng invocations per shot = (6 / sub_region_size)  = 2
/// DECLARE source REAL[12]     # implicit sub-region count = (12 / sub_region_size) = 4
/// DECLARE seed INTEGER[1]
/// DECLARE ro BIT[1]
///
/// DELAY 0 1e-6
///
/// PRAGMA EXTERN choose_random_real_sub_regions "(destination : mut REAL[], source : REAL[], sub_region_size : INTEGER, seed : mut INTEGER)"
/// CALL choose_random_real_sub_regions destination source 3 seed
/// ```
///
/// with a seed of 639,523, `choose_random_real_sub_region_indices(seed, 0, 2 * 100, 4)`
/// provides the random sequence of sub-region indices.
pub fn choose_random_real_sub_region_indices(
    seed: PrngSeedValue,
    start_index: u32,
    series_length: u32,
    sub_region_count: u8,
) -> (indices: Vec<u8>)
    requires
        start_index + series_length <= u32::MAX,
        series_length == 0 || sub_region_count > 0,
    ensures
        indices@.len() == series_length,
        forall|k: int|
            0 <= k < series_length ==> #[trigger] indices@[k] == sub_region_index(
                lfsr_v1_iterate(seed@, (start_index + k + 1) as nat),
                sub_region_count,
            ),
        forall|k: int| 0 <= k < series_length ==> #[trigger] indices@[k] < sub_region_count,
{
    let raw = seed.as_u64();
    assert(raw & 0x0000_FFFF_FFFF_FFFFu64 == raw) by (bit_vector)
        requires
            raw <= 0x0000_FFFF_FFFF_FFFFu64,
    ;
    let sequence = generate_lfsr_v1_sequence(raw, start_index, series_length);
    let mut indices: Vec<u8> = Vec::new();
    let mut i: usize = 0;
    while i < sequence.len()
        invariant
            sequence@.len() == series_length,
            series_length == 0 || sub_region_count > 0,
            i <= sequence@.len(),
            indices@.len() == i,
            forall|k: int|
                0 <= k < i ==> #[trigger] indices@[k] == sub_region_index(
                    sequence@[k],
                    sub_region_count,
                ),
            forall|k: int| 0 <= k < i ==> #[trigger] indices@[k] < sub_region_count,
        decreases sequence@.len() - i,
    {
        let index = prng_value_to_sub_region_index(sequence[i], sub_region_count);
        indices.push(index);
        i = i + 1;
    }
    indices
}

} // verus!
