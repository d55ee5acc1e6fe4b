//! The bodies of requests to the QVM's HTTP API, and the reading of its replies.
//!
//! Noise levels are carried as the bits of their `f64` values.
use crate::qvm::Error;
use std::collections::HashMap;
use vstd::prelude::*;

verus! {

/// The kind of a request to the QVM.
#[derive(Debug, Clone, Copy, PartialEq, Eq, PartialOrd, Ord, Structural)]
pub enum RequestType {
    /// Run a program a number of times.
    Multishot,
    /// Run a program once and sample its final state a number of times.
    MultishotMeasure,
    /// Measure the expectation value of operators.
    Expectation,
    /// Get the wavefunction that a program produces.
    Wavefunction,
}

/// The failure that the QVM reports.
#[derive(Debug, PartialEq, Eq)]
pub struct Failure {
    /// The message from QVM describing what went wrong.
    pub status: String,
}

/// A QVM response: a successful response of type `T`, or a [`Failure`] containing an error
/// message.
#[derive(Debug)]
pub enum QvmResponse<T> {
    /// The successful response.
    Success(T),
    /// The failure.
    Failure(Failure),
}

impl<T> QvmResponse<T> {
    /// Converts a [`QvmResponse<T>`] into a [`Result<T, Error>`] containing the successful
    /// response as the Ok value, or an [`Error::Qvm`] with the message of the [`Failure`].
    pub fn into_result(self) -> (result: Result<T, Error>)
        ensures
            match self {
                QvmResponse::Success(response) => result == Ok::<T, Error>(response),
                QvmResponse::Failure(failure) => (result matches Err(Error::Qvm { message })
                    && message == failure.status),
            },
    {
        match self {
            QvmResponse::Success(response) => Ok(response),
            QvmResponse::Failure(failure) => Err(Error::Qvm { message: failure.status }),
        }
    }
}

/// An enum encapsulating the different ways to request data back from the QVM for an address.
#[derive(Debug, PartialEq, Eq)]
pub enum AddressRequest {
    /// Get all values for the address.
    IncludeAll,
    /// Exclude all values for the address.
    ExcludeAll,
    /// A list of specific indices to get back for the address.
    Indices(Vec<usize>),
}

/// The mathematical value of an [`AddressRequest`].
pub enum AddressRequestView {
    /// Get all values for the address.
    IncludeAll,
    /// Exclude all values for the address.
    ExcludeAll,
    /// These indices of the address.
    Indices(Seq<usize>),
}

impl View for AddressRequest {
    type V = AddressRequestView;

    open spec fn view(&self) -> AddressRequestView {
        match self {
            AddressRequest::IncludeAll => AddressRequestView::IncludeAll,
            AddressRequest::ExcludeAll => AddressRequestView::ExcludeAll,
            AddressRequest::Indices(indices) => AddressRequestView::Indices(indices@),
        }
    }
}

impl Clone for AddressRequest {
    fn clone(&self) -> (copy: Self)
        ensures
            copy@ == self@,
    {
        match self {
            AddressRequest::IncludeAll => AddressRequest::IncludeAll,
            AddressRequest::ExcludeAll => AddressRequest::ExcludeAll,
            AddressRequest::Indices(indices) => {
                AddressRequest::Indices(vstd::slice::slice_to_vec(indices.as_slice()))
            },
        }
    }
}

/// Noise levels for the X, Y, and Z axes, as the bits of `f64` values.
pub type Noise = (u64, u64, u64);

/// The request body needed to make a multishot run request to the QVM.
#[derive(Debug)]
pub struct MultishotRequest {
    /// The Quil program to run.
    pub compiled_quil: String,
    /// The memory regions to include in the response.
    pub addresses: HashMap<String, AddressRequest>,
    /// The number of trials ("shots") to run; never zero.
    pub trials: u16,
    /// Simulated measurement noise for the X, Y, and Z axes.
    pub measurement_noise: Option<Noise>,
    /// Simulated gate noise for the X, Y, and Z axes.
    pub gate_noise: Option<Noise>,
    /// An optional seed for the random number generator.
    pub rng_seed: Option<i64>,
}

impl MultishotRequest {
    /// The kind of the request, which names it in its body.
    pub fn request_type(&self) -> (kind: RequestType)
        ensures
            kind == RequestType::Multishot,
    {
        RequestType::Multishot
    }

    /// Creates a new [`MultishotRequest`] with the given parameters.
    pub fn new(
        compiled_quil: String,
        trials: u16,
        addresses: HashMap<String, AddressRequest>,
        measurement_noise: Option<Noise>,
        gate_noise: Option<Noise>,
        rng_seed: Option<i64>,
    ) -> (request: Self)
        requires
            trials > 0,
        ensures
            request.compiled_quil == compiled_quil,
            request.trials == trials,
            request.addresses == addresses,
            request.measurement_noise == measurement_noise,
            request.gate_noise == gate_noise,
            request.rng_seed == rng_seed,
    {
        MultishotRequest {
            compiled_quil,
            addresses,
            trials,
            measurement_noise,
            gate_noise,
            rng_seed,
        }
    }
}

/// The request body needed for a run-and-measure request to the QVM.
#[derive(Debug)]
pub struct MultishotMeasureRequest {
    /// The Quil program to run.
    pub compiled_quil: String,
    /// The number of trials ("shots") to run the program; never zero.
    pub trials: u16,
    /// Qubits to measure
    pub qubits: Vec<u64>,
    /// Simulated measurement noise for the X, Y, and Z axes.
    pub measurement_noise: Option<Noise>,
    /// Simulated gate noise for the X, Y, and Z axes.
    pub gate_noise: Option<Noise>,
    /// An optional seed for the random number generator.
    pub rng_seed: Option<i64>,
}

impl MultishotMeasureRequest {
    /// The kind of the request, which names it in its body.
    pub fn request_type(&self) -> (kind: RequestType)
        ensures
            kind == RequestType::MultishotMeasure,
    {
        RequestType::MultishotMeasure
    }

    /// Construct a new [`MultishotMeasureRequest`] using the given parameters.
    pub fn new(
        compiled_quil: String,
        trials: u16,
        qubits: &[u64],
        measurement_noise: Option<Noise>,
        gate_noise: Option<Noise>,
        rng_seed: Option<i64>,
    ) -> (request: Self)
        requires
            trials > 0,
        ensures
            request.compiled_quil == compiled_quil,
            request.trials == trials,
            request.qubits@ == qubits@,
            request.measurement_noise == measurement_noise,
            request.gate_noise == gate_noise,
            request.rng_seed == rng_seed,
    {
        MultishotMeasureRequest {
            compiled_quil,
            trials,
            qubits: vstd::slice::slice_to_vec(qubits),
            measurement_noise,
            gate_noise,
            rng_seed,
        }
    }
}

/// The request body needed for an expectation request to the QVM.
#[derive(Debug)]
pub struct ExpectationRequest {
    /// A Quil program defining the state.
    pub state_preparation: String,
    /// A list of Pauli operators to measure.
    pub operators: Vec<String>,
    /// An optional seed for the random number generator.
    pub rng_seed: Option<i64>,
}

impl ExpectationRequest {
    /// The kind of the request, which names it in its body.
    pub fn request_type(&self) -> (kind: RequestType)
        ensures
            kind == RequestType::Expectation,
    {
        RequestType::Expectation
    }

    /// Creates a new [`ExpectationRequest`] using the given parameters.
    pub fn new(state_preparation: String, operators: &[String], rng_seed: Option<i64>) -> (request:
        Self)
        ensures
            request.state_preparation == state_preparation,
            request.operators@ == operators@,
            request.rng_seed == rng_seed,
    {
        let mut copied: Vec<String> = Vec::new();
        let mut i: usize = 0;
        while i < operators.len()
            invariant
                i <= operators@.len(),
                copied@ == operators@.take(i as int),
            decreases operators@.len() - i,
        {
            copied.push(operators[i].clone());
            assert(operators@.take(i as int + 1) =~= operators@.take(i as int).push(operators@[i as int]));
            i = i + 1;
        }
        assert(operators@.take(operators@.len() as int) =~= operators@);
        ExpectationRequest {
            state_preparation,
            operators: copied,
            rng_seed,
        }
    }
}

/// The request body needed to make a wavefunction request to the QVM.
#[derive(Debug)]
pub struct WavefunctionRequest {
    /// The Quil program to run.
    pub compiled_quil: String,
    /// Simulated measurement noise for the X, Y, and Z axes.
    pub measurement_noise: Option<Noise>,
    /// Simulated gate noise for the X, Y, and Z axes.
    pub gate_noise: Option<Noise>,
    /// An optional seed for the random number generator.
    pub rng_seed: Option<i64>,
}

impl WavefunctionRequest {
    /// The kind of the request, which names it in its body.
    pub fn request_type(&self) -> (kind: RequestType)
        ensures
            kind == RequestType::Wavefunction,
    {
        RequestType::Wavefunction
    }

    /// Create a new [`WavefunctionRequest`] with the given parameters.
    pub fn new(
        compiled_quil: String,
        measurement_noise: Option<Noise>,
        gate_noise: Option<Noise>,
        rng_seed: Option<i64>,
    ) -> (request: Self)
        ensures
            request.compiled_quil == compiled_quil,
            request.measurement_noise == measurement_noise,
            request.gate_noise == gate_noise,
            request.rng_seed == rng_seed,
    {
        WavefunctionRequest {
            compiled_quil,
            measurement_noise,
            gate_noise,
            rng_seed,
        }
    }
}

} // verus!
