//! Running Quil programs on the QVM: options, errors, and the checks and memory writes by
//! which parameters are applied to a program before it runs.
use crate::qpu::api::{duration_from_secs, duration_of_secs};
use crate::quil::{Declaration, MemoryReference, MemoryReferenceView, Vector};
use std::time::Duration;
use vstd::prelude::*;

pub mod api;
pub mod libquil;

verus! {

/// Number of seconds to wait before timing out.
pub const DEFAULT_QVM_TIMEOUT_SECS: u64 = 30;

/// Options available for running programs on the QVM.
#[derive(Debug, Clone, Copy)]
pub struct QvmOptions {
    /// The timeout to use for requests to the QVM. If set to [`None`], there is no timeout.
    pub timeout: Option<Duration>,
}

impl QvmOptions {
    /// Builds a [`QvmOptions`] with the zero value for each option.
    ///
    /// Consider using [`Default`] to get a reasonable set of
    /// configuration options as a starting point.
    pub fn new() -> (options: Self)
        ensures
            options.timeout is None,
    {
        QvmOptions { timeout: None }
    }
}

impl Default for QvmOptions {
    fn default() -> (options: Self)
        ensures
            options.timeout == Some(duration_of_secs(DEFAULT_QVM_TIMEOUT_SECS)),
    {
        QvmOptions { timeout: Some(duration_from_secs(DEFAULT_QVM_TIMEOUT_SECS)) }
    }
}

/// The errors that running a program on the QVM can give, apart from those of parsing,
/// printing and communication.
#[derive(Debug)]
pub enum Error {
    /// Shots must be a positive integer.
    ShotsMustBePositive,
    /// A parameter gives a number of values that differs from the size of its region.
    RegionSizeMismatch {
        /// The name of the region.
        name: String,
        /// The size it is declared with.
        declared: u64,
        /// The number of values given.
        parameters: usize,
    },
    /// A parameter names no declared region.
    RegionNotFound {
        /// The name of the parameter.
        name: String,
    },
    /// The QVM reported a problem running the program.
    Qvm {
        /// The QVM's message.
        message: String,
    },
}

/// The size of the first region of a name among the declared regions.
pub open spec fn declared_size(regions: Seq<Declaration>, name: Seq<char>) -> Option<Vector>
    decreases regions.len(),
{
    if regions.len() == 0 {
        None
    } else if regions[0].name@ == name {
        Some(regions[0].size)
    } else {
        declared_size(regions.drop_first(), name)
    }
}

/// Whether a parameter, given as a region name and a number of values, fits a declared region.
pub open spec fn parameter_fits(regions: Seq<Declaration>, parameter: (String, usize)) -> bool {
    match declared_size(regions, parameter.0@) {
        Some(size) => size.length == parameter.1,
        None => false,
    }
}

/// Whether an error is the one that a parameter that does not fit gives: a size mismatch where
/// its region is declared, else a missing region.
pub open spec fn is_parameter_error(
    regions: Seq<Declaration>,
    parameter: (String, usize),
    error: Error,
) -> bool {
    match declared_size(regions, parameter.0@) {
        Some(size) => error matches Error::RegionSizeMismatch { name, declared, parameters }
            && name@ == parameter.0@ && declared == size.length && parameters == parameter.1,
        None => error matches Error::RegionNotFound { name } && name@ == parameter.0@,
    }
}

fn find_declared_size(regions: &Vec<Declaration>, name: &String) -> (size: Option<Vector>)
    ensures
        size == declared_size(regions@, name@),
{
    let mut j: usize = 0;
    assert(regions@.subrange(0, regions@.len() as int) =~= regions@);
    while j < regions.len()
        invariant
            j <= regions.len(),
            declared_size(regions@, name@) == declared_size(
                regions@.subrange(j as int, regions@.len() as int),
                name@,
            ),
        decreases regions.len() - j,
    {
        let ghost rest = regions@.subrange(j as int, regions@.len() as int);
        assert(rest.drop_first() =~= regions@.subrange(j as int + 1, regions@.len() as int));
        if regions[j].name.eq(name) {
            return Some(regions[j].size);
        }
        j = j + 1;
    }
    None
}

/// Checks parameters, each a region name with the number of values given for it, against the
/// declared regions: each must name a region of exactly that size. The first parameter that
/// does not fit gives the error.
pub fn check_parameters(regions: &Vec<Declaration>, parameters: &Vec<(String, usize)>) -> (checked:
    Result<(), Error>)
    ensures
        checked is Ok <==> forall|i: int|
            0 <= i < parameters.len() ==> #[trigger] parameter_fits(regions@, parameters@[i]),
        checked is Err ==> exists|k: int|
            0 <= k < parameters.len() && !parameter_fits(regions@, #[trigger] parameters@[k])
                && (forall|i: int| 0 <= i < k ==> #[trigger] parameter_fits(regions@, parameters@[i]))
                && is_parameter_error(regions@, parameters@[k], checked->Err_0),
{
    let mut i: usize = 0;
    while i < parameters.len()
        invariant
            i <= parameters.len(),
            forall|j: int| 0 <= j < i ==> #[trigger] parameter_fits(regions@, parameters@[j]),
        decreases parameters.len() - i,
    {
        let parameter = &parameters[i];
        match find_declared_size(regions, &parameter.0) {
            Some(size) => {
                if size.length != parameter.1 as u64 {
                    assert(!parameter_fits(regions@, parameters@[i as int]));
                    return Err(
                        Error::RegionSizeMismatch {
                            name: parameter.0.clone(),
                            declared: size.length,
                            parameters: parameter.1,
                        },
                    );
                }
            },
            None => {
                assert(!parameter_fits(regions@, parameters@[i as int]));
                return Err(Error::RegionNotFound { name: parameter.0.clone() });
            },
        }
        i = i + 1;
    }
    Ok(())
}

/// The memory writes of one parameter: each of its values, by index, into its region.
pub open spec fn writes_of(parameter: (String, usize)) -> Seq<MemoryReferenceView> {
    Seq::new(
        parameter.1 as nat,
        |index: int| MemoryReferenceView { name: parameter.0@, index: index as u64 },
    )
}

/// The memory writes that applying parameters makes, in order: those of each parameter in
/// turn.
pub open spec fn parameter_writes(parameters: Seq<(String, usize)>) -> Seq<MemoryReferenceView>
    decreases parameters.len(),
{
    if parameters.len() == 0 {
        Seq::empty()
    } else {
        parameter_writes(parameters.drop_last()) + writes_of(parameters.last())
    }
}

/// The views of a list of memory references.
pub open spec fn reference_views(references: Seq<MemoryReference>) -> Seq<MemoryReferenceView> {
    references.map_values(|reference: MemoryReference| reference@)
}

/// The memory references that applying parameters to a program writes, in the order of the
/// `MOVE` instructions that are put before its body: each parameter in turn, and within one
/// parameter its values by index.
pub fn parameter_destinations(parameters: &Vec<(String, usize)>) -> (destinations: Vec<
    MemoryReference,
>)
    ensures
        reference_views(destinations@) == parameter_writes(parameters@),
{
    let mut destinations: Vec<MemoryReference> = Vec::new();
    let mut i: usize = 0;
    while i < parameters.len()
        invariant
            i <= parameters.len(),
            reference_views(destinations@) == parameter_writes(
                parameters@.subrange(0, i as int),
            ),
        decreases parameters.len() - i,
    {
        let parameter = &parameters[i];
        let ghost before = reference_views(destinations@);
        let mut index: usize = 0;
        while index < parameter.1
            invariant
                index <= parameter.1,
                reference_views(destinations@) == before + writes_of(*parameter).take(
                    index as int,
                ),
            decreases parameter.1 - index,
        {
            let ghost previous = destinations@;
            let destination = MemoryReference { name: parameter.0.clone(), index: index as u64 };
            destinations.push(destination);
            assert(reference_views(destinations@) =~= reference_views(previous).push(destination@));
            assert(writes_of(*parameter).take(index as int + 1) =~= writes_of(*parameter).take(
                index as int,
            ).push(destination@));
            assert(reference_views(destinations@) =~= before + writes_of(*parameter).take(
                index as int + 1,
            ));
            index = index + 1;
        }
        assert(writes_of(*parameter).take(index as int) =~= writes_of(*parameter));
        assert(parameters@.subrange(0, i as int + 1).drop_last() =~= parameters@.subrange(
            0,
            i as int,
        ));
        i = i + 1;
    }
    assert(parameters@.subrange(0, parameters@.len() as int) =~= parameters@);
    destinations
}

} // verus!
