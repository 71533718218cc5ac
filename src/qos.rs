use vstd::prelude::*;

verus! {

#[derive(Clone, Copy, Debug, PartialEq, Eq, Structural)]
pub enum ReliabilityKind {
    BestEffort,
    Reliable,
}

#[derive(Clone, Copy, Debug, PartialEq, Eq, Structural)]
pub struct Reliability {
    pub kind: ReliabilityKind,
    /// In nanoseconds.
    pub max_blocking_time: i64,
}

#[derive(Clone, Copy, Debug, PartialEq, Eq, Structural)]
pub enum HistoryKind {
    KeepLast,
    KeepAll,
}

#[derive(Clone, Copy, Debug, PartialEq, Eq, Structural)]
pub struct History {
    pub kind: HistoryKind,
    pub depth: i32,
}

#[derive(Clone, Copy, Debug, PartialEq, Eq, Structural)]
pub enum DurabilityKind {
    Volatile,
    TransientLocal,
    Transient,
    Persistent,
}

/// Durations are in nanoseconds throughout.
#[derive(Clone, Copy, Debug, PartialEq, Eq, Structural)]
pub struct DurabilityService {
    pub service_cleanup_delay: i64,
    pub history_kind: HistoryKind,
    pub history_depth: i32,
    pub max_samples: i32,
    pub max_instances: i32,
    pub max_samples_per_instance: i32,
}

#[derive(Clone, Copy, Debug, PartialEq, Eq, Structural)]
pub enum PresentationAccessScope {
    Instance,
    Topic,
    Group,
}

#[derive(Clone, Copy, Debug, PartialEq, Eq, Structural)]
pub struct Presentation {
    pub access_scope: PresentationAccessScope,
    pub coherent_access: bool,
    pub ordered_access: bool,
}

#[derive(Clone, Copy, Debug, PartialEq, Eq, Structural)]
pub enum OwnershipKind {
    Shared,
    Exclusive,
}

#[derive(Clone, Copy, Debug, PartialEq, Eq, Structural)]
pub enum LivelinessKind {
    Automatic,
    ManualByParticipant,
    ManualByTopic,
}

#[derive(Clone, Copy, Debug, PartialEq, Eq, Structural)]
pub struct Liveliness {
    pub kind: LivelinessKind,
    pub lease_duration: i64,
}

#[derive(Clone, Copy, Debug, PartialEq, Eq, Structural)]
pub enum DestinationOrderKind {
    ByReceptionTimestamp,
    BySourceTimestamp,
}

#[derive(Clone, Copy, Debug, PartialEq, Eq, Structural)]
pub struct ResourceLimits {
    pub max_samples: i32,
    pub max_instances: i32,
    pub max_samples_per_instance: i32,
}

#[derive(Clone, Copy, Debug, PartialEq, Eq, Structural)]
pub struct ReaderDataLifecycle {
    pub autopurge_nowriter_samples_delay: i64,
    pub autopurge_disposed_samples_delay: i64,
}

#[derive(Clone, Copy, Debug, PartialEq, Eq, Structural)]
pub enum TypeConsistencyKind {
    DisallowTypeCoercion,
    AllowTypeCoercion,
}

#[derive(Clone, Copy, Debug, PartialEq, Eq, Structural)]
pub struct TypeConsistency {
    pub kind: TypeConsistencyKind,
    pub ignore_sequence_bounds: bool,
    pub ignore_string_bounds: bool,
    pub ignore_member_names: bool,
    pub prevent_type_widening: bool,
    pub force_type_validation: bool,
}

#[derive(Clone, Copy, Debug, PartialEq, Eq, Structural)]
pub enum IgnoreLocalKind {
    Nothing,
    Participant,
    Process,
}

/// A named property of an entity.
#[derive(Clone, Debug, PartialEq, Eq)]
pub struct Property {
    pub name: String,
    pub value: String,
}

/// The protocol-neutral QoS record of an entity, one field per policy of the
/// native record; a policy left `None` takes the middleware's default.
#[derive(Clone, Debug, PartialEq, Eq)]
pub struct Qos {
    pub user_data: Option<Vec<u8>>,
    pub topic_data: Option<Vec<u8>>,
    pub group_data: Option<Vec<u8>>,
    pub durability: Option<DurabilityKind>,
    pub durability_service: Option<DurabilityService>,
    pub presentation: Option<Presentation>,
    /// The deadline period.
    pub deadline: Option<i64>,
    /// The latency budget's duration.
    pub latency_budget: Option<i64>,
    pub ownership: Option<OwnershipKind>,
    pub ownership_strength: Option<i32>,
    pub liveliness: Option<Liveliness>,
    /// The time-based filter's minimum separation.
    pub time_based_filter: Option<i64>,
    /// The partition names.
    pub partition: Option<Vec<String>>,
    pub reliability: Option<Reliability>,
    pub transport_priority: Option<i32>,
    /// The lifespan's duration.
    pub lifespan: Option<i64>,
    pub destination_order: Option<DestinationOrderKind>,
    pub history: Option<History>,
    pub resource_limits: Option<ResourceLimits>,
    /// Whether unregistered instances are disposed of.
    pub writer_data_lifecycle: Option<bool>,
    pub reader_data_lifecycle: Option<ReaderDataLifecycle>,
    /// Whether updates are batched.
    pub writer_batching: Option<bool>,
    pub type_consistency: Option<TypeConsistency>,
    pub entity_name: Option<String>,
    pub properties: Option<Vec<Property>>,
    pub ignore_local: Option<IgnoreLocalKind>,
    /// The data representation identifiers, in order of preference.
    pub data_representation: Option<Vec<i16>>,
}

/// A record that leaves every policy to the middleware's default.
pub open spec fn default_qos() -> Qos {
    Qos {
        user_data: None,
        topic_data: None,
        group_data: None,
        durability: None,
        durability_service: None,
        presentation: None,
        deadline: None,
        latency_budget: None,
        ownership: None,
        ownership_strength: None,
        liveliness: None,
        time_based_filter: None,
        partition: None,
        reliability: None,
        transport_priority: None,
        lifespan: None,
        destination_order: None,
        history: None,
        resource_limits: None,
        writer_data_lifecycle: None,
        reader_data_lifecycle: None,
        writer_batching: None,
        type_consistency: None,
        entity_name: None,
        properties: None,
        ignore_local: None,
        data_representation: None,
    }
}

impl Qos {
    /// A record that leaves every policy to the middleware's default.
    pub fn new() -> (r: Qos)
        ensures
            r == default_qos(),
    {
        Qos {
            user_data: None,
            topic_data: None,
            group_data: None,
            durability: None,
            durability_service: None,
            presentation: None,
            deadline: None,
            latency_budget: None,
            ownership: None,
            ownership_strength: None,
            liveliness: None,
            time_based_filter: None,
            partition: None,
            reliability: None,
            transport_priority: None,
            lifespan: None,
            destination_order: None,
            history: None,
            resource_limits: None,
            writer_data_lifecycle: None,
            reader_data_lifecycle: None,
            writer_batching: None,
            type_consistency: None,
            entity_name: None,
            properties: None,
            ignore_local: None,
            data_representation: None,
        }
    }
}

pub open spec fn is_best_effort(r: Option<Reliability>) -> bool {
    r matches Some(Reliability { kind: ReliabilityKind::BestEffort, .. })
}

/// A writer keeps every policy but a best-effort reliability, which falls back
/// to the default (reliable, with a small blocking time).
pub open spec fn spec_writer_qos(q: Qos) -> Qos {
    Qos { reliability: if is_best_effort(q.reliability) { None } else { q.reliability }, ..q }
}

/// A polling reader keeps only the latest sample.
pub open spec fn spec_periodic_reader_qos(q: Qos) -> Qos {
    Qos { history: Some(History { kind: HistoryKind::KeepLast, depth: 1 }), ..q }
}

/// The QoS that a forwarding writer is created with.
pub fn writer_qos(qos: Qos) -> (r: Qos)
    ensures
        r == spec_writer_qos(qos),
{
    let mut q = qos;
    if let Some(Reliability { kind: ReliabilityKind::BestEffort, .. }) = q.reliability {
        q.reliability = None;
    }
    q
}

/// The QoS that a reader polled once per period is created with.
pub fn periodic_reader_qos(qos: Qos) -> (r: Qos)
    ensures
        r == spec_periodic_reader_qos(qos),
{
    let mut q = qos;
    q.history = Some(History { kind: HistoryKind::KeepLast, depth: 1 });
    q
}

/// A writer's QoS never asks for best-effort delivery, and asking again
/// changes nothing.
pub proof fn lemma_writer_never_best_effort(q: Qos)
    ensures
        !is_best_effort(spec_writer_qos(q).reliability),
        spec_writer_qos(spec_writer_qos(q)) == spec_writer_qos(q),
{
}

} // verus!
