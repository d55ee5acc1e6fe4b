//! Simulation of the control system's externed random-number functions, with taps
//! given as 1-based bit positions.
use vstd::prelude::*;

use crate::qpu::experimental::random::{
    choose_random_parameters, extern_pragma, extern_pragma_of, extern_signature,
    extern_signature_of, lfsr_v1_iterate, lfsr_v1_step, signature_parameters, signature_quil,
    signature_quil_of, sub_region_index, tap_bit, MAX_SEQUENCER_VALUE, MAX_UNSIGNED_MULTIPLIER,
};
use quil_rs::instruction::{ExternError, ExternSignature, Pragma};
use quil_rs::quil::ToQuilError;

verus! {

/// An error that may occur when simulating control system extern
/// function calls.
#[derive(Debug, PartialEq)]
pub enum Error {
    /// The seed is outside `[1, MAX_SEQUENCER_VALUE]`.
    InvalidSeed(u64),
    /// A conversion to Quil failed, with the reason.
    ToQuilError(String),
    /// An error occurred while constructing an extern signature.
    ExternSignatureError(ExternError),
}

/// What quil-rs's `Display` writes for an error of writing Quil.
pub uninterp spec fn to_quil_error_text(error: ToQuilError) -> Seq<char>;

/// Calls `to_string` on quil-rs's `ToQuilError`, whose text depends on the error alone.
#[verifier::external_body]
fn describe_to_quil_error(error: &ToQuilError) -> (text: String)
    ensures
        text@ == to_quil_error_text(*error),
{
    error.to_string()
}

/// The externed function that selects random sub-regions of a source array into a destination
/// array.
#[derive(Debug, Clone, Copy)]
pub struct ChooseRandomRealSubRegions;

/// The signature of the externed function, or the error that building it gives.
pub open spec fn extern_signature_result() -> Result<ExternSignature, Error> {
    match signature_parameters() {
        Ok(parameters) => Ok(extern_signature_of(parameters)),
        Err(e) => Err(Error::ExternSignatureError(e)),
    }
}

impl ChooseRandomRealSubRegions {
    /// The name of the externed function.
    pub const NAME: &'static str = "choose_random_real_sub_regions";

    /// Build the signature for the `PRAGMA EXTERN choose_random_real_sub_regions` instruction:
    /// `(destination : mut REAL[], source : REAL[], sub_region_size : INTEGER, seed : mut INTEGER)`.
    pub fn build_signature() -> (signature: Result<ExternSignature, Error>)
        ensures
            signature == extern_signature_result(),
    {
        match choose_random_parameters() {
            Ok(parameters) => Ok(extern_signature(parameters)),
            Err(e) => Err(Error::ExternSignatureError(e)),
        }
    }

    /// Build the `PRAGMA EXTERN` instruction of the externed function: its name and the Quil
    /// text of its signature; a failure to write the signature is reported as its text.
    pub fn pragma_extern() -> (pragma: Result<Pragma, Error>)
        ensures
            match extern_signature_result() {
                Ok(signature) => match signature_quil_of(signature) {
                    Ok(text) => pragma == Ok::<Pragma, Error>(
                        extern_pragma_of("choose_random_real_sub_regions"@, text),
                    ),
                    Err(e) => (pragma matches Err(Error::ToQuilError(text)) && text@
                        == to_quil_error_text(e)),
                },
                Err(e) => pragma == Err::<Pragma, Error>(e),
            },
    {
        let signature = Self::build_signature()?;
        let text = match signature_quil(&signature) {
            Ok(text) => text,
            Err(e) => {
                return Err(Error::ToQuilError(describe_to_quil_error(&e)));
            },
        };
        proof {
            reveal_strlit("choose_random_real_sub_regions");
        }
        Ok(extern_pragma(Self::NAME, text))
    }
}

/// The exclusive-or of the bits of `seed` at each of the 1-based `taps`, folded from the
/// first tap.
pub open spec fn one_based_feedback(seed: u64, taps: Seq<u32>) -> u64
    decreases taps.len(),
{
    if taps.len() == 0 {
        0
    } else {
        one_based_feedback(seed, taps.drop_last()) ^ tap_bit(seed, (taps.last() - 1) as u32)
    }
}

/// One step of a 48-bit LFSR whose taps are 1-based bit positions.
pub open spec fn one_based_lfsr_step(seed: u64, taps: Seq<u32>) -> u64 {
    ((seed << 1) & MAX_SEQUENCER_VALUE) | one_based_feedback(seed, taps)
}

/// Taps at the 1-based positions 48, 47, 21 and 20 are the taps at the 0-based positions
/// 47, 46, 20 and 19: both descriptions give the same LFSR.
pub proof fn lemma_one_based_taps_agree(seed: u64)
    ensures
        one_based_lfsr_step(seed, seq![48u32, 47u32, 21u32, 20u32]) == lfsr_v1_step(seed),
{
    let t4 = seq![48u32, 47u32, 21u32, 20u32];
    let t3 = seq![48u32, 47u32, 21u32];
    let t2 = seq![48u32, 47u32];
    let t1 = seq![48u32];
    let t0 = Seq::<u32>::empty();
    assert(t4.drop_last() =~= t3);
    assert(t3.drop_last() =~= t2);
    assert(t2.drop_last() =~= t1);
    assert(t1.drop_last() =~= t0);
    let b47 = tap_bit(seed, 47);
    assert(one_based_feedback(seed, t0) == 0);
    assert(one_based_feedback(seed, t1) == 0u64 ^ b47);
    assert(0u64 ^ b47 == b47) by (bit_vector);
    assert(one_based_feedback(seed, t2) == b47 ^ tap_bit(seed, 46));
    assert(one_based_feedback(seed, t3) == b47 ^ tap_bit(seed, 46) ^ tap_bit(seed, 20));
    assert(one_based_feedback(seed, t4) == b47 ^ tap_bit(seed, 46) ^ tap_bit(seed, 20)
        ^ tap_bit(seed, 19));
}

/// A valid seed value that may be used to initialize the PRNG: a value in
/// `[1, MAX_SEQUENCER_VALUE]`.
#[derive(Debug, Clone, Copy)]
pub struct PrngSeedValue {
    as_u64: u64,
}

impl View for PrngSeedValue {
    type V = u64;

    closed spec fn view(&self) -> u64 {
        self.as_u64
    }
}

impl PrngSeedValue {
    #[verifier::type_invariant]
    spec fn in_range(self) -> bool {
        1 <= self.as_u64 <= MAX_SEQUENCER_VALUE
    }

    /// Create a seed; the value must lie in `[1, MAX_SEQUENCER_VALUE]`.
    pub fn try_new(value: u64) -> (result: Result<Self, Error>)
        ensures
            result is Ok <==> 1 <= value <= MAX_SEQUENCER_VALUE,
            result matches Ok(seed) ==> seed@ == value,
            result matches Err(e) ==> e == Error::InvalidSeed(value),
    {
        if value < 1 || value > MAX_SEQUENCER_VALUE {
            return Err(Error::InvalidSeed(value));
        }
        Ok(Self { as_u64: value })
    }

    /// The seed as an unsigned integer; it lies in `[1, MAX_SEQUENCER_VALUE]`.
    pub fn as_u64(&self) -> (value: u64)
        ensures
            value == self@,
            1 <= value <= MAX_SEQUENCER_VALUE,
    {
        proof {
            use_type_invariant(self);
        }
        self.as_u64
    }
}

/// Advance a 48-bit LFSR with the given 1-based taps by one step.
fn lfsr_next(seed: u64, taps: &[u32]) -> (next: u64)
    requires
        forall|i: int| 0 <= i < taps@.len() ==> 1 <= #[trigger] taps@[i] <= 64,
    ensures
        next == one_based_lfsr_step(seed, taps@),
{
    let mut feedback_value: u64 = 0;
    let mut i: usize = 0;
    while i < taps.len()
        invariant
            0 <= i <= taps@.len(),
            forall|j: int| 0 <= j < taps@.len() ==> 1 <= #[trigger] taps@[j] <= 64,
            feedback_value == one_based_feedback(seed, taps@.take(i as int)),
        decreases taps@.len() - i,
    {
        let tap = taps[i];
        let base = 1u64 << (tap - 1);
        let bit: u64 = if (seed & base) != 0 {
            1
        } else {
            0
        };
        feedback_value = feedback_value ^ bit;
        assert(taps@.take(i + 1).drop_last() =~= taps@.take(i as int));
        i = i + 1;
    }
    assert(taps@.take(taps@.len() as int) =~= taps@);
    ((seed << 1) & MAX_SEQUENCER_VALUE) | feedback_value
}

/// One step of the control-system LFSR (1-based taps 48, 47, 21 and 20) on a raw register.
fn lfsr_v1_step_exec(seed: u64) -> (next: u64)
    ensures
        next == lfsr_v1_step(seed),
{
    let taps: [u32; 4] = [48, 47, 21, 20];
    assert(taps@ =~= seq![48u32, 47u32, 21u32, 20u32]);
    proof {
        lemma_one_based_taps_agree(seed);
    }
    lfsr_next(seed, &taps)
}

/// This represents the LFSR currently implemented on Rigetti control systems. Specifically,
/// it implements a 48-bit LFSR with taps at indices 48, 47, 21, and 20.
pub fn lfsr_v1_next(seed: PrngSeedValue) -> (next: u64)
    ensures
        next == lfsr_v1_step(seed@),
{
    lfsr_v1_step_exec(seed.as_u64())
}

/// The values of the control-system LFSR started at `seed` (truncated to 48 bits), from
/// step `start_index + 1` to step `start_index + series_length`.
pub fn generate_lfsr_v1_sequence(seed: u64, start_index: u32, series_length: u32) -> (sequence:
    Vec<u64>)
    requires
        start_index + series_length <= u32::MAX,
    ensures
        sequence@.len() == series_length,
        forall|k: int|
            0 <= k < series_length ==> #[trigger] sequence@[k] == lfsr_v1_iterate(
                seed & MAX_SEQUENCER_VALUE,
                (start_index + k + 1) as nat,
            ),
{
    let ghost initial = seed & MAX_SEQUENCER_VALUE;
    let mut lfsr = seed & MAX_SEQUENCER_VALUE;
    let end = start_index + series_length;
    let mut collection: Vec<u64> = Vec::new();
    let mut i: u32 = 0;
    while i < end
        invariant
            end == start_index + series_length,
            i <= end,
            lfsr == lfsr_v1_iterate(initial, i as nat),
            collection@.len() == (if i <= start_index {
                0
            } else {
                i - start_index
            }),
            forall|k: int|
                0 <= k < collection@.len() ==> #[trigger] collection@[k] == lfsr_v1_iterate(
                    initial,
                    (start_index + k + 1) as nat,
                ),
        decreases end - i,
    {
        lfsr = lfsr_v1_step_exec(lfsr);
        assert(lfsr == lfsr_v1_iterate(initial, (i + 1) as nat));
        if start_index <= i && i < end {
            collection.push(lfsr);
        }
        i = i + 1;
    }
    collection
}

/// Map a PRNG value to a sub-region index, as the control system does.
fn prng_value_to_sub_region_index(value: u64, sub_region_count: u8) -> (index: u8)
    requires
        sub_region_count > 0,
    ensures
        index == sub_region_index(value, sub_region_count),
        index < sub_region_count,
{
    let reduced = (value & MAX_UNSIGNED_MULTIPLIER) % (sub_region_count as u64);
    reduced as u8
}

/// Given a seed, start index, series length, and sub-region count, this function
/// will generate the sequence of pseudo-randomly chosen indices Rigetti control
/// systems.
pub fn choose_random_real_sub_region_indices(
    seed: PrngSeedValue,
    start_index: u32,
    series_length: u32,
    sub_region_count: u8,
) -> (indices: Vec<u8>)
    requires
        start_index + series_length <= u32::MAX,
        series_length == 0 || sub_region_count > 0,
    ensures
        indices@.len() == series_length,
        forall|k: int|
            0 <= k < series_length ==> #[trigger] indices@[k] == sub_region_index(
                lfsr_v1_iterate(seed@, (start_index + k + 1) as nat),
                sub_region_count,
            ),
{
    let raw = seed.as_u64();
    assert(raw & 0x0000_FFFF_FFFF_FFFFu64 == raw) by (bit_vector)
        requires
            raw <= 0x0000_FFFF_FFFF_FFFFu64,
    ;
    let sequence = generate_lfsr_v1_sequence(raw, start_index, series_length);
    let mut indices: Vec<u8> = Vec::new();
    let mut i: usize = 0;
    while i < sequence.len()
        invariant
            sequence@.len() == series_length,
            series_length == 0 || sub_region_count > 0,
            i <= sequence@.len(),
            indices@.len() == i,
            forall|k: int|
                0 <= k < i ==> #[trigger] indices@[k] == sub_region_index(
                    sequence@[k],
                    sub_region_count,
                ),
        decreases sequence@.len() - i,
    {
        let index = prng_value_to_sub_region_index(sequence[i], sub_region_count);
        indices.push(index);
        i = i + 1;
    }
    indices
}

} // verus!
