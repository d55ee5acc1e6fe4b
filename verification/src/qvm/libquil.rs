//! The requests and results of a QVM run in-process through libquil: which address requests it
//! can serve, and the narrowing of the integers it hands back.
use crate::qvm::api::{AddressRequest, AddressRequestView};
use vstd::prelude::*;

verus! {

/// The errors of preparing a libquil request or reading its result, apart from those of
/// libquil itself.
#[derive(Debug, PartialEq, Eq)]
pub enum Error {
    /// We currently only support requesting a specific set of register indices
    /// or _all_ register indices.
    UnsupportedIndicesRequestType,
    /// A value did not fit the integer type it is cast to.
    InvalidCast,
}

/// What libquil returns of a memory region: all of its values, or those at some indices.
#[derive(Debug, PartialEq, Eq)]
pub enum MultishotAddressRequest {
    /// All values of the region.
    All,
    /// The values at these indices.
    Indices(Vec<usize>),
}

/// The mathematical value of a [`MultishotAddressRequest`]: `None` for all values.
pub open spec fn multishot_request_view(request: MultishotAddressRequest) -> Option<Seq<usize>> {
    match request {
        MultishotAddressRequest::All => None,
        MultishotAddressRequest::Indices(indices) => Some(indices@),
    }
}

/// The libquil form of an address request, or `None` for one that libquil cannot serve
/// (`ExcludeAll`): `IncludeAll` asks for all values, `Indices` for the same indices.
pub open spec fn libquil_request(request: AddressRequestView) -> Option<Option<Seq<usize>>> {
    match request {
        AddressRequestView::IncludeAll => Some(None),
        AddressRequestView::ExcludeAll => None,
        AddressRequestView::Indices(indices) => Some(Some(indices)),
    }
}

/// The address requests of a multishot run as libquil takes them, in the same order and under
/// the same names. Fails exactly where some request is `ExcludeAll`.
pub fn multishot_addresses(addresses: &Vec<(String, AddressRequest)>) -> (result: Result<
    Vec<(String, MultishotAddressRequest)>,
    Error,
>)
    ensures
        result is Err <==> exists|i: int|
            0 <= i < addresses@.len() && (#[trigger] addresses@[i]).1@ is ExcludeAll,
        result matches Err(e) ==> e == Error::UnsupportedIndicesRequestType,
        result matches Ok(requests) ==> requests@.len() == addresses@.len() && forall|i: int|
            0 <= i < requests@.len() ==> (#[trigger] requests@[i]).0@ == addresses@[i].0@
                && libquil_request(addresses@[i].1@) == Some(
                multishot_request_view(requests@[i].1),
            ),
{
    let mut requests: Vec<(String, MultishotAddressRequest)> = Vec::new();
    let mut i: usize = 0;
    while i < addresses.len()
        invariant
            i <= addresses@.len(),
            requests@.len() == i,
            forall|k: int| 0 <= k < i ==> !((#[trigger] addresses@[k]).1@ is ExcludeAll),
            forall|k: int|
                0 <= k < i ==> (#[trigger] requests@[k]).0@ == addresses@[k].0@ && libquil_request(
                    addresses@[k].1@,
                ) == Some(multishot_request_view(requests@[k].1)),
        decreases addresses@.len() - i,
    {
        let (name, request) = &addresses[i];
        let converted = match request {
            AddressRequest::Indices(indices) => MultishotAddressRequest::Indices(indices.clone()),
            AddressRequest::IncludeAll => MultishotAddressRequest::All,
            AddressRequest::ExcludeAll => {
                return Err(Error::UnsupportedIndicesRequestType);
            },
        };
        requests.push((name.clone(), converted));
        i = i + 1;
    }
    Ok(requests)
}

/// Whether every value of a register lies in the range of `i8`.
pub open spec fn fits_i8(values: Seq<Vec<i32>>) -> bool {
    forall|s: int, k: int|
        0 <= s < values.len() && 0 <= k < values[s]@.len() ==> i8::MIN <= #[trigger] values[s]@[k]
            <= i8::MAX
}

fn shots_as_i8(values: &Vec<Vec<i32>>) -> (result: Result<Vec<Vec<i8>>, Error>)
    ensures
        result is Ok <==> fits_i8(values@),
        result matches Err(e) ==> e == Error::InvalidCast,
        result matches Ok(narrowed) ==> narrowed@.len() == values@.len() && forall|s: int|
            0 <= s < values@.len() ==> (#[trigger] narrowed@[s])@.len() == values@[s]@.len()
                && forall|k: int|
                0 <= k < values@[s]@.len() ==> narrowed@[s]@[k] == values@[s]@[k],
{
    let mut narrowed: Vec<Vec<i8>> = Vec::new();
    let mut s: usize = 0;
    while s < values.len()
        invariant
            s <= values@.len(),
            narrowed@.len() == s,
            forall|t: int, k: int|
                0 <= t < s && 0 <= k < values@[t]@.len() ==> i8::MIN <= #[trigger] values@[t]@[k]
                    <= i8::MAX,
            forall|t: int|
                0 <= t < s ==> (#[trigger] narrowed@[t])@.len() == values@[t]@.len() && forall|
                    k: int,
                | 0 <= k < values@[t]@.len() ==> narrowed@[t]@[k] == values@[t]@[k],
        decreases values@.len() - s,
    {
        let shot = &values[s];
        let mut row: Vec<i8> = Vec::new();
        let mut k: usize = 0;
        while k < shot.len()
            invariant
                s < values@.len(),
                *shot == values@[s as int],
                k <= shot@.len(),
                row@.len() == k,
                forall|j: int| 0 <= j < k ==> i8::MIN <= #[trigger] shot@[j] <= i8::MAX,
                forall|j: int| 0 <= j < k ==> #[trigger] row@[j] == shot@[j],
            decreases shot@.len() - k,
        {
            let value = shot[k];
            if value < -128 || value > 127 {
                proof {
                    assert(!fits_i8(values@)) by {
                        assert(values@[s as int]@[k as int] == value);
                    }
                }
                return Err(Error::InvalidCast);
            }
            row.push(value as i8);
            k = k + 1;
        }
        narrowed.push(row);
        s = s + 1;
    }
    Ok(narrowed)
}

/// The registers that libquil returns, as `i8` values of each shot, in the same order and under
/// the same names. Fails exactly where some value lies outside the range of `i8`.
pub fn registers_as_i8(values: Vec<(String, Vec<Vec<i32>>)>) -> (result: Result<
    Vec<(String, Vec<Vec<i8>>)>,
    Error,
>)
    ensures
        result is Err <==> exists|i: int|
            0 <= i < values@.len() && !fits_i8((#[trigger] values@[i]).1@),
        result matches Err(e) ==> e == Error::InvalidCast,
        result matches Ok(registers) ==> registers@.len() == values@.len() && forall|i: int|
            0 <= i < values@.len() ==> (#[trigger] registers@[i]).0@ == values@[i].0@
                && registers@[i].1@.len() == values@[i].1@.len() && forall|s: int|
                0 <= s < values@[i].1@.len() ==> registers@[i].1@[s]@.len()
                    == values@[i].1@[s]@.len() && forall|k: int|
                    0 <= k < values@[i].1@[s]@.len() ==> registers@[i].1@[s]@[k]
                        == values@[i].1@[s]@[k],
{
    let mut registers: Vec<(String, Vec<Vec<i8>>)> = Vec::new();
    let mut i: usize = 0;
    while i < values.len()
        invariant
            i <= values@.len(),
            registers@.len() == i,
            forall|j: int| 0 <= j < i ==> fits_i8((#[trigger] values@[j]).1@),
            forall|j: int|
                0 <= j < i ==> (#[trigger] registers@[j]).0@ == values@[j].0@
                    && registers@[j].1@.len() == values@[j].1@.len() && forall|s: int|
                    0 <= s < values@[j].1@.len() ==> registers@[j].1@[s]@.len()
                        == values@[j].1@[s]@.len() && forall|k: int|
                        0 <= k < values@[j].1@[s]@.len() ==> registers@[j].1@[s]@[k]
                            == values@[j].1@[s]@[k],
        decreases values@.len() - i,
    {
        let (name, shots) = &values[i];
        let narrowed = match shots_as_i8(shots) {
            Ok(narrowed) => narrowed,
            Err(e) => {
                return Err(e);
            },
        };
        registers.push((name.clone(), narrowed));
        i = i + 1;
    }
    Ok(registers)
}

/// The qubits of a measuring run as libquil takes them. Fails exactly where some qubit index
/// lies outside the range of `i32`.
pub fn qubits_as_i32(qubits: &Vec<u64>) -> (result: Result<Vec<i32>, Error>)
    ensures
        result is Err <==> exists|i: int| 0 <= i < qubits@.len() && #[trigger] qubits@[i] > i32::MAX,
        result matches Err(e) ==> e == Error::InvalidCast,
        result matches Ok(converted) ==> converted@.len() == qubits@.len() && forall|i: int|
            0 <= i < qubits@.len() ==> #[trigger] converted@[i] == qubits@[i],
{
    let mut converted: Vec<i32> = Vec::new();
    let mut i: usize = 0;
    while i < qubits.len()
        invariant
            i <= qubits@.len(),
            converted@.len() == i,
            forall|j: int| 0 <= j < i ==> #[trigger] qubits@[j] <= i32::MAX,
            forall|j: int| 0 <= j < i ==> #[trigger] converted@[j] == qubits@[j],
        decreases qubits@.len() - i,
    {
        let qubit = qubits[i];
        if qubit > 2147483647 {
            return Err(Error::InvalidCast);
        }
        converted.push(qubit as i32);
        i = i + 1;
    }
    Ok(converted)
}

} // verus!
