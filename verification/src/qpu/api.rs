//! The decisions behind submitting jobs to and retrieving results from a QPU:
//! execution options, which target a request names, where a gRPC address is
//! looked up, which gateway accessor is chosen and when a job counts as failed.
//! The network calls themselves are made by the caller.
use qcs_api_client_grpc::models::controller::controller_job_execution_result::Status as ControllerStatus;
use std::time::Duration;
use vstd::prelude::*;

verus! {

/// What `Duration::from_secs` returns for a number of seconds.
pub uninterp spec fn duration_of_secs(secs: u64) -> Duration;

/// Calls `std::time::Duration::from_secs`; the result is the duration of `secs`
/// whole seconds, which depends on `secs` alone.
#[verifier::external_body]
pub(crate) fn duration_from_secs(secs: u64) -> (d: Duration)
    ensures
        d == duration_of_secs(secs),
{
    Duration::from_secs(secs)
}

/// The number of seconds that a request may take unless the options say otherwise.
pub const DEFAULT_TIMEOUT_SECS: u64 = 30;

/// The QCS Job ID. Useful for debugging or retrieving results later.
#[derive(Debug, PartialEq, Eq, PartialOrd, Ord, Hash)]
pub struct JobId(pub(crate) String);

impl JobId {
    /// The ID as text.
    pub closed spec fn spec_id(&self) -> Seq<char> {
        self.0@
    }

    /// The ID as a string, as it is displayed.
    pub fn to_string(&self) -> (text: String)
        ensures
            text@ == self.spec_id(),
    {
        self.0.clone()
    }
}

impl Clone for JobId {
    fn clone(&self) -> (copy: Self)
        ensures
            copy == *self,
    {
        JobId(self.0.clone())
    }
}

impl From<String> for JobId {
    fn from(value: String) -> (id: Self)
        ensures
            id.spec_id() == value@,
    {
        JobId(value)
    }
}

impl vstd::std_specs::convert::FromSpecImpl<String> for JobId {
    open spec fn obeys_from_spec() -> bool {
        true
    }

    closed spec fn from_spec(value: String) -> Self {
        JobId(value)
    }
}

/// The connection strategy to use when submitting and retrieving jobs from a QPU.
#[derive(Debug, PartialEq, Eq)]
pub enum ConnectionStrategy {
    /// Connect through the publicly accessible gateway.
    Gateway,
    /// Connect directly to the default endpoint, bypassing the gateway. Should only be used when
    /// you have direct network access and an active reservation.
    DirectAccess,
    /// Connect directly to a specific endpoint using its ID.
    EndpointId(String),
}

impl Clone for ConnectionStrategy {
    fn clone(&self) -> (copy: Self)
        ensures
            copy == *self,
    {
        match self {
            ConnectionStrategy::Gateway => ConnectionStrategy::Gateway,
            ConnectionStrategy::DirectAccess => ConnectionStrategy::DirectAccess,
            ConnectionStrategy::EndpointId(id) => ConnectionStrategy::EndpointId(id.clone()),
        }
    }
}

impl Default for ConnectionStrategy {
    fn default() -> (strategy: Self)
        ensures
            strategy == ConnectionStrategy::Gateway,
    {
        ConnectionStrategy::Gateway
    }
}

/// Options available when executing a job on a QPU.
///
/// Use [`Default`] to get a reasonable set of defaults, or start with
/// [`ExecutionOptionsBuilder`] to build a custom set of options.
#[derive(Debug, PartialEq, Eq)]
pub struct ExecutionOptions {
    connection_strategy: ConnectionStrategy,
    timeout: Option<Duration>,
}

impl Clone for ExecutionOptions {
    fn clone(&self) -> (copy: Self)
        ensures
            copy == *self,
    {
        ExecutionOptions {
            connection_strategy: self.connection_strategy.clone(),
            timeout: self.timeout,
        }
    }
}

/// The timeout that options have unless one is set: thirty seconds.
pub open spec fn default_timeout() -> Option<Duration> {
    Some(duration_of_secs(DEFAULT_TIMEOUT_SECS))
}

impl Default for ExecutionOptions {
    fn default() -> (options: Self)
        ensures
            options.spec_connection_strategy() == ConnectionStrategy::Gateway,
            options.spec_timeout() == default_timeout(),
    {
        ExecutionOptions {
            connection_strategy: ConnectionStrategy::Gateway,
            timeout: Some(duration_from_secs(DEFAULT_TIMEOUT_SECS)),
        }
    }
}

impl ExecutionOptions {
    /// The connection strategy of these options.
    pub closed spec fn spec_connection_strategy(&self) -> ConnectionStrategy {
        self.connection_strategy
    }

    /// The timeout of these options; `None` means no timeout.
    pub closed spec fn spec_timeout(&self) -> Option<Duration> {
        self.timeout
    }

    /// Get an [`ExecutionOptionsBuilder`] that can be used to build a custom
    /// [`ExecutionOptions`].
    pub fn builder() -> (builder: ExecutionOptionsBuilder)
        ensures
            builder.spec_set_connection_strategy().is_none(),
            builder.spec_set_timeout().is_none(),
    {
        ExecutionOptionsBuilder::default()
    }

    /// Get the [`ConnectionStrategy`].
    pub fn connection_strategy(&self) -> (strategy: &ConnectionStrategy)
        ensures
            *strategy == self.spec_connection_strategy(),
    {
        &self.connection_strategy
    }

    /// Get the timeout.
    pub fn timeout(&self) -> (timeout: Option<Duration>)
        ensures
            timeout == self.spec_timeout(),
    {
        self.timeout
    }
}

/// The error that building [`ExecutionOptions`] can report. Every option has a default, so
/// [`ExecutionOptionsBuilder::build`] never reports one.
#[derive(Debug)]
pub enum ExecutionOptionsBuilderError {
    /// A field that has no default was not set.
    UninitializedField(&'static str),
    /// The options were rejected.
    ValidationError(String),
}

/// Builder for [`ExecutionOptions`]: each option that is not set keeps its default.
#[derive(Debug)]
pub struct ExecutionOptionsBuilder {
    connection_strategy: Option<ConnectionStrategy>,
    timeout: Option<Option<Duration>>,
}

impl Clone for ExecutionOptionsBuilder {
    fn clone(&self) -> (copy: Self)
        ensures
            copy == *self,
    {
        let connection_strategy = match &self.connection_strategy {
            Some(strategy) => Some(strategy.clone()),
            None => None,
        };
        ExecutionOptionsBuilder { connection_strategy, timeout: self.timeout }
    }
}

impl Default for ExecutionOptionsBuilder {
    fn default() -> (builder: Self)
        ensures
            builder.spec_set_connection_strategy().is_none(),
            builder.spec_set_timeout().is_none(),
    {
        ExecutionOptionsBuilder { connection_strategy: None, timeout: None }
    }
}

impl ExecutionOptionsBuilder {
    /// The connection strategy, if one was set.
    pub closed spec fn spec_set_connection_strategy(&self) -> Option<ConnectionStrategy> {
        self.connection_strategy
    }

    /// The timeout, if one was set.
    pub closed spec fn spec_set_timeout(&self) -> Option<Option<Duration>> {
        self.timeout
    }

    /// The options that [`ExecutionOptionsBuilder::build`] makes from this builder.
    pub open spec fn spec_build(&self) -> (ConnectionStrategy, Option<Duration>) {
        (
            match self.spec_set_connection_strategy() {
                Some(strategy) => strategy,
                None => ConnectionStrategy::Gateway,
            },
            match self.spec_set_timeout() {
                Some(timeout) => timeout,
                None => default_timeout(),
            },
        )
    }

    /// The [`ConnectionStrategy`] to use to establish a connection to the QPU.
    pub fn connection_strategy(&mut self, value: ConnectionStrategy) -> (builder: &mut Self)
        ensures
            builder.spec_set_connection_strategy() == Some(value),
            builder.spec_set_timeout() == old(self).spec_set_timeout(),
            *final(self) == *final(builder),
    {
        self.connection_strategy = Some(value);
        self
    }

    /// The timeout to use for the request, defaults to 30 seconds. If set to `None`, then
    /// there is no timeout.
    pub fn timeout(&mut self, value: Option<Duration>) -> (builder: &mut Self)
        ensures
            builder.spec_set_timeout() == Some(value),
            builder.spec_set_connection_strategy() == old(self).spec_set_connection_strategy(),
            *final(self) == *final(builder),
    {
        self.timeout = Some(value);
        self
    }

    /// Builds the [`ExecutionOptions`]; an option that was not set takes its default.
    pub fn build(&self) -> (built: Result<ExecutionOptions, ExecutionOptionsBuilderError>)
        ensures
            built is Ok,
            built->Ok_0.spec_connection_strategy() == self.spec_build().0,
            built->Ok_0.spec_timeout() == self.spec_build().1,
    {
        let connection_strategy = match &self.connection_strategy {
            Some(strategy) => strategy.clone(),
            None => ConnectionStrategy::Gateway,
        };
        let timeout = match self.timeout {
            Some(timeout) => timeout,
            None => Some(duration_from_secs(DEFAULT_TIMEOUT_SECS)),
        };
        Ok(ExecutionOptions { connection_strategy, timeout })
    }
}


/// The errors that choosing a connection to a QPU, or judging a job's outcome, can give.
#[derive(Debug)]
pub enum QpuApiError {
    /// Error due to missing gRPC endpoint for endpoint ID
    EndpointNotFound(String),
    /// Error due to missing gRPC endpoint for quantum processor
    QpuEndpointNotFound(String),
    /// Error due to failure to find gateway for quantum processor
    GatewayNotFound(String),
    /// Error due to missing quantum processor ID and endpoint ID.
    MissingQpuId,
    /// Error that can occur when controller service fails to execute a job
    JobExecutionFailed {
        /// The status of the failed job.
        status: String,
        /// The message associated with the failed job.
        message: String,
    },
}

/// The target that a request to the controller service names.
#[derive(Debug, PartialEq, Eq)]
pub enum ControllerTarget {
    /// The quantum processor with this ID.
    QuantumProcessorId(String),
    /// The endpoint with this ID.
    EndpointId(String),
}

/// The text of an optional string slice.
pub open spec fn optional_text(text: Option<&str>) -> Option<Seq<char>> {
    match text {
        Some(text) => Some(text@),
        None => None,
    }
}

/// The target that a request names under a connection strategy: the endpoint where one is
/// given, else the quantum processor, if there is one.
pub open spec fn is_target_for(
    strategy: ConnectionStrategy,
    quantum_processor_id: Option<Seq<char>>,
    target: Option<ControllerTarget>,
) -> bool {
    match strategy {
        ConnectionStrategy::EndpointId(endpoint_id) => target == Some(
            ControllerTarget::EndpointId(endpoint_id),
        ),
        _ => match quantum_processor_id {
            Some(id) => (target matches Some(ControllerTarget::QuantumProcessorId(named))
                && named@ == id),
            None => target is None,
        },
    }
}

/// Where the gRPC address of a QPU is to be looked up.
#[derive(Debug, PartialEq, Eq)]
pub enum AddressSource {
    /// The addresses of the endpoint with this ID.
    Endpoint(String),
    /// The gateway accessors of the quantum processor with this ID.
    Gateway(String),
    /// The default endpoint of the quantum processor with this ID.
    DefaultEndpoint(String),
}

impl ExecutionOptions {
    fn target(&self, quantum_processor_id: Option<&str>) -> (target: Option<ControllerTarget>)
        ensures
            is_target_for(
                self.spec_connection_strategy(),
                optional_text(quantum_processor_id),
                target,
            ),
    {
        match self.connection_strategy() {
            ConnectionStrategy::EndpointId(endpoint_id) => Some(
                ControllerTarget::EndpointId(endpoint_id.clone()),
            ),
            _ => match quantum_processor_id {
                Some(id) => Some(ControllerTarget::QuantumProcessorId(id.to_owned())),
                None => None,
            },
        }
    }

    /// The target of a request that submits a job.
    pub fn get_job_target(&self, quantum_processor_id: Option<&str>) -> (target: Option<
        ControllerTarget,
    >)
        ensures
            is_target_for(
                self.spec_connection_strategy(),
                optional_text(quantum_processor_id),
                target,
            ),
    {
        self.target(quantum_processor_id)
    }

    /// The target of a request that retrieves a job's results.
    pub fn get_results_target(&self, quantum_processor_id: Option<&str>) -> (target: Option<
        ControllerTarget,
    >)
        ensures
            is_target_for(
                self.spec_connection_strategy(),
                optional_text(quantum_processor_id),
                target,
            ),
    {
        self.target(quantum_processor_id)
    }

    /// Where the gRPC address of the QPU is looked up: the endpoint named by the strategy,
    /// or else the gateway or default endpoint of the quantum processor, whose ID must then
    /// be given.
    pub fn address_source(&self, quantum_processor_id: Option<&str>) -> (source: Result<
        AddressSource,
        QpuApiError,
    >)
        ensures
            match self.spec_connection_strategy() {
                ConnectionStrategy::EndpointId(endpoint_id) => source matches Ok(
                    AddressSource::Endpoint(id),
                ) && id == endpoint_id,
                ConnectionStrategy::Gateway => match quantum_processor_id {
                    Some(qpu) => (source matches Ok(AddressSource::Gateway(id)) && id@ == qpu@),
                    None => source matches Err(QpuApiError::MissingQpuId),
                },
                ConnectionStrategy::DirectAccess => match quantum_processor_id {
                    Some(qpu) => (source matches Ok(AddressSource::DefaultEndpoint(id)) && id@
                        == qpu@),
                    None => source matches Err(QpuApiError::MissingQpuId),
                },
            },
    {
        match self.connection_strategy() {
            ConnectionStrategy::EndpointId(endpoint_id) => Ok(
                AddressSource::Endpoint(endpoint_id.clone()),
            ),
            ConnectionStrategy::Gateway => match quantum_processor_id {
                Some(id) => Ok(AddressSource::Gateway(id.to_owned())),
                None => Err(QpuApiError::MissingQpuId),
            },
            ConnectionStrategy::DirectAccess => match quantum_processor_id {
                Some(id) => Ok(AddressSource::DefaultEndpoint(id.to_owned())),
                None => Err(QpuApiError::MissingQpuId),
            },
        }
    }
}

/// The gRPC address of an endpoint, from the addresses that the endpoint lists.
pub fn endpoint_grpc_address(endpoint_id: &str, grpc: Option<String>) -> (address: Result<
    String,
    QpuApiError,
>)
    ensures
        match grpc {
            Some(listed) => address == Ok::<String, QpuApiError>(listed),
            None => (address matches Err(QpuApiError::EndpointNotFound(id)) && id@
                == endpoint_id@),
        },
{
    match grpc {
        Some(listed) => Ok(listed),
        None => Err(QpuApiError::EndpointNotFound(endpoint_id.to_owned())),
    }
}

/// The gRPC address of a quantum processor's default endpoint, from the addresses that the
/// endpoint lists.
pub fn default_endpoint_grpc_address(quantum_processor_id: &str, grpc: Option<String>) -> (address:
    Result<String, QpuApiError>)
    ensures
        match grpc {
            Some(listed) => address == Ok::<String, QpuApiError>(listed),
            None => (address matches Err(QpuApiError::QpuEndpointNotFound(id)) && id@
                == quantum_processor_id@),
        },
{
    match grpc {
        Some(listed) => Ok(listed),
        None => Err(QpuApiError::QpuEndpointNotFound(quantum_processor_id.to_owned())),
    }
}

/// A way of reaching a quantum processor, as the list of its accessors gives it.
#[derive(Debug, PartialEq, Eq)]
pub struct QuantumProcessorAccessor {
    /// Whether the accessor is live.
    pub live: bool,
    /// Whether its access type is `GatewayV1`.
    pub gateway_v1: bool,
    /// Its rank; a lower rank is preferred.
    pub rank: Option<i64>,
    /// Its URL.
    pub url: String,
}

impl Clone for QuantumProcessorAccessor {
    fn clone(&self) -> (copy: Self)
        ensures
            copy == *self,
    {
        QuantumProcessorAccessor {
            live: self.live,
            gateway_v1: self.gateway_v1,
            rank: self.rank,
            url: self.url.clone(),
        }
    }
}

/// Whether an accessor can be used to reach the gateway: live and of type `GatewayV1`.
pub open spec fn is_gateway(accessor: QuantumProcessorAccessor) -> bool {
    accessor.live && accessor.gateway_v1
}

/// The key by which accessors are compared: the rank, with no rank counting as the largest.
pub open spec fn rank_key(accessor: QuantumProcessorAccessor) -> i64 {
    match accessor.rank {
        Some(rank) => rank,
        None => i64::MAX,
    }
}

/// The first gateway accessor of least rank in a list, if the list has a gateway accessor.
pub open spec fn best_gateway(accessors: Seq<QuantumProcessorAccessor>) -> Option<
    QuantumProcessorAccessor,
>
    decreases accessors.len(),
{
    if accessors.len() == 0 {
        None
    } else {
        let best = best_gateway(accessors.drop_last());
        let last = accessors.last();
        if is_gateway(last) {
            lesser_accessor(best, Some(last))
        } else {
            best
        }
    }
}

/// The lesser of two optional accessors: no accessor loses to any accessor, and of two
/// accessors the one of smaller key wins, the first where they tie.
pub open spec fn lesser_accessor(
    first: Option<QuantumProcessorAccessor>,
    second: Option<QuantumProcessorAccessor>,
) -> Option<QuantumProcessorAccessor> {
    match (first, second) {
        (None, _) => second,
        (_, None) => first,
        (Some(a), Some(b)) => if rank_key(b) < rank_key(a) {
            second
        } else {
            first
        },
    }
}

fn key_of(accessor: &QuantumProcessorAccessor) -> (key: i64)
    ensures
        key == rank_key(*accessor),
{
    match accessor.rank {
        Some(rank) => rank,
        None => i64::MAX,
    }
}

/// Folds one page of a quantum processor's accessors into the accessor chosen so far: the
/// page's first gateway accessor of least rank replaces it where nothing was chosen yet or
/// where its key is smaller.
pub fn min_gateway_accessor(
    current: Option<QuantumProcessorAccessor>,
    page: &Vec<QuantumProcessorAccessor>,
) -> (chosen: Option<QuantumProcessorAccessor>)
    ensures
        chosen == lesser_accessor(current, best_gateway(page@)),
{
    let mut best: Option<usize> = None;
    let mut i: usize = 0;
    while i < page.len()
        invariant
            i <= page.len(),
            match best {
                Some(j) => j < i && best_gateway(page@.subrange(0, i as int)) == Some(page@[j as int]),
                None => best_gateway(page@.subrange(0, i as int)) is None,
            },
        decreases page.len() - i,
    {
        assert(page@.subrange(0, i as int + 1).drop_last() =~= page@.subrange(0, i as int));
        let candidate = &page[i];
        if candidate.live && candidate.gateway_v1 {
            let replace = match best {
                None => true,
                Some(j) => key_of(candidate) < key_of(&page[j]),
            };
            if replace {
                best = Some(i);
            }
        }
        i = i + 1;
    }
    assert(page@.subrange(0, page@.len() as int) =~= page@);
    let page_best = match best {
        Some(j) => Some(page[j].clone()),
        None => None,
    };
    match (&current, &page_best) {
        (None, _) => page_best,
        (_, None) => current,
        (Some(chosen), Some(found)) => if key_of(found) < key_of(chosen) {
            page_best
        } else {
            current
        },
    }
}

/// Choosing from three accessors gives the same whichever two are compared first.
proof fn lemma_lesser_accessor_associative(
    a: Option<QuantumProcessorAccessor>,
    b: Option<QuantumProcessorAccessor>,
    c: Option<QuantumProcessorAccessor>,
)
    ensures
        lesser_accessor(lesser_accessor(a, b), c) == lesser_accessor(a, lesser_accessor(b, c)),
{
}

proof fn lemma_best_gateway_append(
    first: Seq<QuantumProcessorAccessor>,
    second: Seq<QuantumProcessorAccessor>,
)
    ensures
        best_gateway(first + second) == lesser_accessor(best_gateway(first), best_gateway(second)),
    decreases second.len(),
{
    if second.len() == 0 {
        assert(first + second =~= first);
    } else {
        lemma_best_gateway_append(first, second.drop_last());
        assert((first + second).drop_last() =~= first + second.drop_last());
        let last = second.last();
        assert((first + second).last() == last);
        if is_gateway(last) {
            lemma_lesser_accessor_associative(
                best_gateway(first),
                best_gateway(second.drop_last()),
                Some(last),
            );
        }
    }
}

/// Reading a quantum processor's accessors page by page chooses the same gateway accessor
/// as reading them all at once.
pub proof fn lemma_paging_chooses_alike(
    current: Option<QuantumProcessorAccessor>,
    first: Seq<QuantumProcessorAccessor>,
    second: Seq<QuantumProcessorAccessor>,
)
    ensures
        lesser_accessor(lesser_accessor(current, best_gateway(first)), best_gateway(second))
            == lesser_accessor(current, best_gateway(first + second)),
{
    lemma_best_gateway_append(first, second);
    lemma_lesser_accessor_associative(current, best_gateway(first), best_gateway(second));
}

/// Where a list of accessors holds a gateway accessor, one is chosen, whatever its rank.
pub proof fn lemma_some_gateway_is_chosen(accessors: Seq<QuantumProcessorAccessor>, i: int)
    requires
        0 <= i < accessors.len(),
        is_gateway(accessors[i]),
    ensures
        best_gateway(accessors) is Some,
    decreases accessors.len(),
{
    if i < accessors.len() - 1 {
        lemma_some_gateway_is_chosen(accessors.drop_last(), i);
    }
}

/// The accessor chosen from a list is a gateway accessor of the list whose key is no larger
/// than that of any gateway accessor in it, and smaller than that of every one before it.
pub proof fn lemma_best_gateway_is_least(accessors: Seq<QuantumProcessorAccessor>)
    requires
        best_gateway(accessors) is Some,
    ensures
        exists|i: int|
            0 <= i < accessors.len() && accessors[i] == best_gateway(accessors)->Some_0
                && is_gateway(accessors[i]) && (forall|j: int|
                0 <= j < i && is_gateway(#[trigger] accessors[j]) ==> rank_key(accessors[i])
                    < rank_key(accessors[j])),
        forall|j: int|
            0 <= j < accessors.len() && is_gateway(#[trigger] accessors[j]) ==> rank_key(
                best_gateway(accessors)->Some_0,
            ) <= rank_key(accessors[j]),
    decreases accessors.len(),
{
    let rest = accessors.drop_last();
    let last = accessors.last();
    let n = accessors.len() - 1;
    if best_gateway(rest) is Some {
        lemma_best_gateway_is_least(rest);
        let i = choose|i: int|
            0 <= i < rest.len() && rest[i] == best_gateway(rest)->Some_0 && is_gateway(rest[i])
                && (forall|j: int|
                0 <= j < i && is_gateway(#[trigger] rest[j]) ==> rank_key(rest[i]) < rank_key(
                    rest[j],
                ));
        if is_gateway(last) && rank_key(last) < rank_key(rest[i]) {
            assert(forall|j: int| 0 <= j < n ==> #[trigger] accessors[j] == rest[j]);
            assert(accessors[n] == last);
        } else {
            assert(accessors[i] == rest[i]);
            assert(forall|j: int| 0 <= j < n ==> #[trigger] accessors[j] == rest[j]);
        }
    } else {
        assert forall|j: int| 0 <= j < n implies !is_gateway(#[trigger] accessors[j]) by {
            assert(accessors[j] == rest[j]);
            if is_gateway(rest[j]) {
                lemma_some_gateway_is_chosen(rest, j);
            }
        }
        assert(accessors[n] == last);
    }
}

/// The ID of a submitted job among the IDs that the controller service answers with: one
/// execution configuration is submitted, so one ID is expected, and the last is taken. `None`
/// where the answer holds no ID.
pub fn submitted_job_id(job_execution_ids: Vec<String>) -> (id: Option<JobId>)
    ensures
        job_execution_ids@.len() == 0 ==> id is None,
        job_execution_ids@.len() > 0 ==> id is Some && id->Some_0.spec_id()
            == job_execution_ids@.last()@,
{
    let mut ids = job_execution_ids;
    match ids.pop() {
        Some(last) => Some(JobId(last)),
        None => None,
    }
}

/// The URL of the gateway accessor chosen for a quantum processor.
pub fn gateway_url(quantum_processor_id: &str, chosen: Option<QuantumProcessorAccessor>) -> (url:
    Result<String, QpuApiError>)
    ensures
        match chosen {
            Some(accessor) => url == Ok::<String, QpuApiError>(accessor.url),
            None => (url matches Err(QpuApiError::GatewayNotFound(id)) && id@
                == quantum_processor_id@),
        },
{
    match chosen {
        Some(accessor) => Ok(accessor.url),
        None => Err(QpuApiError::GatewayNotFound(quantum_processor_id.to_owned())),
    }
}

/// The status that the controller service reports for an executed job.
#[derive(Debug, Clone, Copy, PartialEq, Eq)]
pub enum JobStatus {
    /// `UNKNOWN`
    Unknown,
    /// `SUCCESS`
    Success,
    /// `SERVICE_FAILURE`: failure caused by an error in the service.
    ServiceFailure,
    /// `USER_FAILURE`: failure caused by the user.
    UserFailure,
    /// `USER_CANCELLATION`: the job was canceled before its execution completed.
    UserCancellation,
}

/// The job status with a number, as the controller service numbers them.
pub open spec fn job_status_of_code(code: i32) -> Option<JobStatus> {
    if code == 0 {
        Some(JobStatus::Unknown)
    } else if code == 1 {
        Some(JobStatus::Success)
    } else if code == 2 {
        Some(JobStatus::ServiceFailure)
    } else if code == 3 {
        Some(JobStatus::UserFailure)
    } else if code == 4 {
        Some(JobStatus::UserCancellation)
    } else {
        None
    }
}

/// Converts a status number with `TryFrom<i32>` of the controller service's
/// `controller_job_execution_result::Status`, whose variants are numbered 0 to 4 in the order
/// of [`JobStatus`]; any other number is no status.
#[verifier::external_body]
fn job_status_from_code(code: i32) -> (status: Option<JobStatus>)
    ensures
        status == job_status_of_code(code),
{
    match ControllerStatus::try_from(code) {
        Ok(ControllerStatus::Unknown) => Some(JobStatus::Unknown),
        Ok(ControllerStatus::Success) => Some(JobStatus::Success),
        Ok(ControllerStatus::ServiceFailure) => Some(JobStatus::ServiceFailure),
        Ok(ControllerStatus::UserFailure) => Some(JobStatus::UserFailure),
        Ok(ControllerStatus::UserCancellation) => Some(JobStatus::UserCancellation),
        Err(_) => None,
    }
}

impl JobStatus {
    /// The name of the status in the service's protocol definition.
    pub open spec fn spec_name(self) -> Seq<char> {
        match self {
            JobStatus::Unknown => "UNKNOWN"@,
            JobStatus::Success => "SUCCESS"@,
            JobStatus::ServiceFailure => "SERVICE_FAILURE"@,
            JobStatus::UserFailure => "USER_FAILURE"@,
            JobStatus::UserCancellation => "USER_CANCELLATION"@,
        }
    }

    /// The name of the status in the service's protocol definition.
    pub fn as_str_name(&self) -> (name: &'static str)
        ensures
            name@ == self.spec_name(),
    {
        match self {
            JobStatus::Unknown => "UNKNOWN",
            JobStatus::Success => "SUCCESS",
            JobStatus::ServiceFailure => "SERVICE_FAILURE",
            JobStatus::UserFailure => "USER_FAILURE",
            JobStatus::UserCancellation => "USER_CANCELLATION",
        }
    }
}

/// The status text that a failed job reports: the status's name, or `UNDEFINED` for a
/// number that names no status.
pub open spec fn failed_status_text(code: i32) -> Seq<char> {
    match job_status_of_code(code) {
        Some(status) => status.spec_name(),
        None => "UNDEFINED"@,
    }
}

/// The message that a failed job reports: the service's, or a note that there is none.
pub open spec fn failed_message_text(message: Option<String>) -> Seq<char> {
    match message {
        Some(message) => message@,
        None => "No message provided."@,
    }
}

/// Judges an executed job by the status number and message that the controller service
/// returned with its results: only `SUCCESS` is a success; any other status, or a number that
/// names none, fails the job with the status's name and the message.
pub fn job_outcome(status: i32, status_message: Option<String>) -> (outcome: Result<
    (),
    QpuApiError,
>)
    ensures
        outcome is Ok <==> job_status_of_code(status) == Some(JobStatus::Success),
        outcome is Err ==> (outcome matches Err(QpuApiError::JobExecutionFailed { status: text, message })
            && text@ == failed_status_text(status) && message@ == failed_message_text(
            status_message,
        )),
{
    let known = job_status_from_code(status);
    match known {
        Some(JobStatus::Success) => Ok(()),
        _ => {
            let text = match known {
                Some(known) => known.as_str_name().to_owned(),
                None => "UNDEFINED".to_owned(),
            };
            let message = match status_message {
                Some(message) => message,
                None => "No message provided.".to_owned(),
            };
            Err(QpuApiError::JobExecutionFailed { status: text, message })
        },
    }
}

/// Under every connection strategy but an endpoint ID, a request names the quantum processor
/// whose ID is given, and none where no ID is given.
pub proof fn lemma_target_is_the_quantum_processor(
    strategy: ConnectionStrategy,
    quantum_processor_id: Option<Seq<char>>,
    target: Option<ControllerTarget>,
)
    requires
        !(strategy is EndpointId),
        is_target_for(strategy, quantum_processor_id, target),
    ensures
        match quantum_processor_id {
            Some(id) => target matches Some(ControllerTarget::QuantumProcessorId(named)) && named@
                == id,
            None => target is None,
        },
{
}

/// The strategy matters to the target only through an endpoint ID: the gateway and direct
/// access give a request the same target, and an endpoint ID names that endpoint whatever the
/// quantum processor.
pub proof fn lemma_target_depends_on_the_endpoint_alone(
    quantum_processor_id: Option<Seq<char>>,
    target: Option<ControllerTarget>,
    endpoint_id: String,
)
    ensures
        is_target_for(ConnectionStrategy::Gateway, quantum_processor_id, target) == is_target_for(
            ConnectionStrategy::DirectAccess,
            quantum_processor_id,
            target,
        ),
        is_target_for(ConnectionStrategy::EndpointId(endpoint_id), quantum_processor_id, target)
            <==> target == Some(ControllerTarget::EndpointId(endpoint_id)),
{
}

} // verus!
