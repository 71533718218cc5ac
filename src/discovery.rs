use vstd::prelude::*;
use vstd::utf8::{decode_utf8, valid_utf8};
use crate::hexkey::{hex_of, key_to_string, same_guid};
use crate::qos::Qos;
use crate::MAX_SAMPLES;

verus! {

/// The entity kind in the last byte of a key for a writer whose topic has no key.
pub const ENTITY_KIND_WRITER_NO_KEY: u8 = 3;

/// The entity kind in the last byte of a key for a reader whose topic has no key.
pub const ENTITY_KIND_READER_NO_KEY: u8 = 4;

#[derive(Clone, Copy, Debug, PartialEq, Eq, Structural)]
pub enum DiscoveryType {
    Participant,
    Publication,
    Subscription,
}

impl DiscoveryType {
    pub fn name(&self) -> (r: &'static str)
        ensures
            r@ == match self {
                DiscoveryType::Participant => "participant"@,
                DiscoveryType::Publication => "publication"@,
                DiscoveryType::Subscription => "subscription"@,
            },
    {
        match self {
            DiscoveryType::Participant => "participant",
            DiscoveryType::Publication => "publication",
            DiscoveryType::Subscription => "subscription",
        }
    }
}

/// A type description resolved by the middleware, owned by the entity that holds it.
#[derive(Debug, PartialEq, Eq, Structural)]
pub struct TypeInfo {
    pub handle: u64,
}

/// What the middleware answered when asked for an endpoint's type description.
#[derive(Debug)]
pub enum TypeInfoLookup {
    Found(TypeInfo),
    NotAvailable,
    Failed(i32),
}

#[derive(Clone, Debug, PartialEq, Eq)]
pub enum RouteStatus {
    /// Routing is active, under this bridge-side key.
    Routed(String),
    NotAllowed,
    CreationFailure(String),
    QosConflict,
}

/// The status of the route for one partition.
#[derive(Clone, Debug)]
pub struct RouteEntry {
    pub partition: String,
    pub status: RouteStatus,
}

#[derive(Debug)]
pub struct DdsEntity {
    pub key: String,
    pub participant_key: String,
    pub topic_name: String,
    pub data_type: String,
    pub type_info: Option<TypeInfo>,
    pub keyless: bool,
    pub qos: Qos,
    /// One entry per partition at most (see `wf`).
    pub routes: Vec<RouteEntry>,
}

#[derive(Debug)]
pub struct DdsParticipant {
    pub key: String,
    pub qos: Qos,
}

#[derive(Debug)]
pub enum DiscoveryEvent {
    DiscoveredPublication { entity: DdsEntity },
    UndiscoveredPublication { key: String },
    DiscoveredSubscription { entity: DdsEntity },
    UndiscoveredSubscription { key: String },
    DiscoveredParticipant { entity: DdsParticipant },
    UndiscoveredParticipant { key: String },
}

/// A sample of the publication or subscription discovery topic, as the
/// middleware delivered it.
#[derive(Debug)]
pub struct EndpointSample {
    pub key: [u8; 16],
    pub participant_key: [u8; 16],
    pub participant_instance_handle: u64,
    pub alive: bool,
    /// The topic name's bytes, not known to be UTF-8; `None` where the sample
    /// carries no name (the key-only sample of a deleted endpoint).
    pub topic_name: Option<Vec<u8>>,
    pub data_type: Option<Vec<u8>>,
    pub type_info: TypeInfoLookup,
    pub qos: Qos,
}

/// A sample of the participant discovery topic.
#[derive(Debug)]
pub struct ParticipantSample {
    pub key: [u8; 16],
    pub alive: bool,
    pub qos: Qos,
}

#[derive(Debug)]
pub enum DiscoverySample {
    Endpoint(EndpointSample),
    Participant(ParticipantSample),
}

/// What a discovery callback knows of the bridge: the kind of entity it
/// listens for and the identity of the bridge's own participant.
#[derive(Clone, Copy, Debug)]
pub struct DiscoveryContext {
    pub kind: DiscoveryType,
    pub own_instance_handle: u64,
    pub own_guid: [u8; 16],
}

/// The mathematical content of a discovered endpoint.
pub struct EntitySpec {
    pub key: Seq<char>,
    pub participant_key: Seq<char>,
    pub topic_name: Seq<char>,
    pub data_type: Seq<char>,
    pub type_info: Option<TypeInfo>,
    pub keyless: bool,
    pub qos: Qos,
    pub n_routes: nat,
}

/// The mathematical content of a discovery event.
pub enum EventSpec {
    Discovered { kind: DiscoveryType, entity: EntitySpec },
    DiscoveredParticipant { key: Seq<char>, qos: Qos },
    Undiscovered { kind: DiscoveryType, key: Seq<char> },
}

impl DdsEntity {
    pub open spec fn view(&self) -> EntitySpec {
        EntitySpec {
            key: self.key@,
            participant_key: self.participant_key@,
            topic_name: self.topic_name@,
            data_type: self.data_type@,
            type_info: self.type_info,
            keyless: self.keyless,
            qos: self.qos,
            n_routes: self.routes@.len(),
        }
    }
}

/// No two entries are for the same partition.
pub open spec fn routes_distinct(routes: Seq<RouteEntry>) -> bool {
    forall|i: int, j: int|
        0 <= i < j < routes.len() ==> #[trigger] routes[i].partition@ != #[trigger] routes[j].partition@
}

impl DdsEntity {
    pub open spec fn wf(&self) -> bool {
        routes_distinct(self.routes@)
    }

    /// Records the route status of a partition, in place of an earlier one
    /// for the same partition.
    pub fn set_route(&mut self, partition: String, status: RouteStatus)
        requires
            old(self).wf(),
        ensures
            final(self).wf(),
            final(self)@ == (EntitySpec { n_routes: final(self).routes@.len(), ..old(self)@ }),
            (exists|i: int|
                0 <= i < old(self).routes@.len() && old(self).routes@[i].partition@ == partition@
                    && final(self).routes@ == old(self).routes@.update(
                    i,
                    RouteEntry { partition, status },
                )) || ((forall|i: int|
                0 <= i < old(self).routes@.len() ==> old(self).routes@[i].partition@
                    != partition@) && final(self).routes@ == old(self).routes@.push(
                RouteEntry { partition, status },
            )),
    {
        let mut i: usize = 0;
        while i < self.routes.len()
            invariant
                0 <= i <= self.routes@.len(),
                *self == *old(self),
                old(self).wf(),
                forall|j: int| 0 <= j < i ==> self.routes@[j].partition@ != partition@,
            decreases self.routes@.len() - i,
        {
            if self.routes[i].partition == partition {
                let ghost before = self.routes@;
                self.routes.set(i, RouteEntry { partition, status });
                assert(routes_distinct(self.routes@)) by {
                    assert forall|a: int, b: int| 0 <= a < b < self.routes@.len() implies #[trigger] self.routes@[a].partition@
                        != #[trigger] self.routes@[b].partition@ by {
                        assert(before[a].partition@ != before[b].partition@);
                    }
                }
                return;
            }
            i = i + 1;
        }
        let ghost before = self.routes@;
        self.routes.push(RouteEntry { partition, status });
        assert(routes_distinct(self.routes@)) by {
            assert forall|a: int, b: int| 0 <= a < b < self.routes@.len() implies #[trigger] self.routes@[a].partition@
                != #[trigger] self.routes@[b].partition@ by {
                if b < before.len() {
                    assert(before[a].partition@ != before[b].partition@);
                }
            }
        }
    }
}

impl DiscoveryEvent {
    pub open spec fn view(&self) -> EventSpec {
        match self {
            DiscoveryEvent::DiscoveredPublication { entity } => EventSpec::Discovered {
                kind: DiscoveryType::Publication,
                entity: entity@,
            },
            DiscoveryEvent::UndiscoveredPublication { key } => EventSpec::Undiscovered {
                kind: DiscoveryType::Publication,
                key: key@,
            },
            DiscoveryEvent::DiscoveredSubscription { entity } => EventSpec::Discovered {
                kind: DiscoveryType::Subscription,
                entity: entity@,
            },
            DiscoveryEvent::UndiscoveredSubscription { key } => EventSpec::Undiscovered {
                kind: DiscoveryType::Subscription,
                key: key@,
            },
            DiscoveryEvent::DiscoveredParticipant { entity } => EventSpec::DiscoveredParticipant {
                key: entity.key@,
                qos: entity.qos,
            },
            DiscoveryEvent::UndiscoveredParticipant { key } => EventSpec::Undiscovered {
                kind: DiscoveryType::Participant,
                key: key@,
            },
        }
    }
}

pub open spec fn spec_keyless(key: Seq<u8>) -> bool {
    key[15] == ENTITY_KIND_WRITER_NO_KEY || key[15] == ENTITY_KIND_READER_NO_KEY
}

/// The bytes that begin the name of every builtin topic ("DCPS").
pub open spec fn builtin_prefix() -> Seq<u8> {
    seq![0x44u8, 0x43u8, 0x50u8, 0x53u8]
}

pub open spec fn has_builtin_prefix(name: Seq<u8>) -> bool {
    name.len() >= 4 && name.take(4) == builtin_prefix()
}

/// Whether a sample names a builtin topic; a sample without a name does not.
pub open spec fn names_builtin_topic(name: Option<Vec<u8>>) -> bool {
    name matches Some(n) && has_builtin_prefix(n@)
}

pub open spec fn resolved_type_info(l: TypeInfoLookup) -> Option<TypeInfo> {
    match l {
        TypeInfoLookup::Found(t) => Some(t),
        _ => None,
    }
}

/// The event, if any, that a discovery sample gives rise to.
pub open spec fn spec_classify(ctx: DiscoveryContext, s: DiscoverySample) -> Option<EventSpec> {
    match s {
        DiscoverySample::Endpoint(e) => {
            if ctx.kind == DiscoveryType::Participant
                || e.participant_instance_handle == ctx.own_instance_handle {
                None
            } else if names_builtin_topic(e.topic_name) {
                None
            } else if !e.alive {
                Some(EventSpec::Undiscovered { kind: ctx.kind, key: hex_of(e.key@) })
            } else if !(e.topic_name matches Some(t) && valid_utf8(t@)) || !(e.data_type matches Some(
                d,
            ) && valid_utf8(d@)) {
                None
            } else {
                Some(
                    EventSpec::Discovered {
                        kind: ctx.kind,
                        entity: EntitySpec {
                            key: hex_of(e.key@),
                            participant_key: hex_of(e.participant_key@),
                            topic_name: decode_utf8(e.topic_name->0@),
                            data_type: decode_utf8(e.data_type->0@),
                            type_info: resolved_type_info(e.type_info),
                            keyless: spec_keyless(e.key@),
                            qos: e.qos,
                            n_routes: 0,
                        },
                    },
                )
            }
        },
        DiscoverySample::Participant(p) => {
            if ctx.kind != DiscoveryType::Participant || p.key@ == ctx.own_guid@ {
                None
            } else if p.alive {
                Some(EventSpec::DiscoveredParticipant { key: hex_of(p.key@), qos: p.qos })
            } else {
                Some(EventSpec::Undiscovered { kind: DiscoveryType::Participant, key: hex_of(p.key@) })
            }
        },
    }
}

pub open spec fn opt_seq(o: Option<EventSpec>) -> Seq<EventSpec> {
    match o {
        Some(e) => seq![e],
        None => seq![],
    }
}

/// The events that a sequence of discovery samples gives rise to, in order.
pub open spec fn spec_events(ctx: DiscoveryContext, s: Seq<DiscoverySample>) -> Seq<EventSpec>
    decreases s.len(),
{
    if s.len() == 0 {
        seq![]
    } else {
        spec_events(ctx, s.drop_last()) + opt_seq(spec_classify(ctx, s.last()))
    }
}

pub open spec fn events_view(v: Seq<DiscoveryEvent>) -> Seq<EventSpec> {
    v.map_values(|e: DiscoveryEvent| e@)
}

/// Relies on String::from_utf8: it succeeds exactly on valid UTF-8, and the
/// string holds the characters that the bytes encode.
#[verifier::external_body]
fn utf8_string(b: &[u8]) -> (r: Option<String>)
    ensures
        r is Some <==> valid_utf8(b@),
        r matches Some(s) ==> s@ == decode_utf8(b@),
{
    String::from_utf8(b.to_vec()).ok()
}

/// Whether an endpoint's key marks its topic as one without a key.
pub fn is_keyless(key: &[u8; 16]) -> (r: bool)
    ensures
        r == spec_keyless(key@),
{
    key[15] == ENTITY_KIND_WRITER_NO_KEY || key[15] == ENTITY_KIND_READER_NO_KEY
}

/// Whether a topic name is that of a builtin topic.
pub fn is_builtin_topic(name: &[u8]) -> (r: bool)
    ensures
        r == has_builtin_prefix(name@),
{
    if name.len() < 4 {
        return false;
    }
    let r = name[0] == 0x44u8 && name[1] == 0x43u8 && name[2] == 0x50u8 && name[3] == 0x53u8;
    assert(r ==> name@.take(4) =~= builtin_prefix());
    assert(name@.take(4) == builtin_prefix() ==> name@.take(4)[0] == 0x44u8 && name@.take(4)[1]
        == 0x43u8 && name@.take(4)[2] == 0x50u8 && name@.take(4)[3] == 0x53u8);
    r
}

/// The type description an entity keeps: a lookup that failed or found
/// nothing leaves the entity without one.
pub fn resolve_type_info(l: TypeInfoLookup) -> (r: Option<TypeInfo>)
    ensures
        r == resolved_type_info(l),
{
    match l {
        TypeInfoLookup::Found(t) => Some(t),
        _ => None,
    }
}

pub open spec fn opt_event_view(o: Option<DiscoveryEvent>) -> Option<EventSpec> {
    match o {
        Some(e) => Some(e@),
        None => None,
    }
}

/// The event, if any, that one discovery sample gives rise to.
pub fn classify(ctx: &DiscoveryContext, s: DiscoverySample) -> (r: Option<DiscoveryEvent>)
    ensures
        opt_event_view(r) == spec_classify(*ctx, s),
        r matches Some(DiscoveryEvent::DiscoveredPublication { entity }) ==> entity.wf(),
        r matches Some(DiscoveryEvent::DiscoveredSubscription { entity }) ==> entity.wf(),
{
    match s {
        DiscoverySample::Endpoint(e) => {
            if ctx.kind == DiscoveryType::Participant || e.participant_instance_handle
                == ctx.own_instance_handle {
                return None;
            }
            let builtin = match &e.topic_name {
                Some(t) => is_builtin_topic(t.as_slice()),
                None => false,
            };
            if builtin {
                return None;
            }
            let key = key_to_string(&e.key);
            if !e.alive {
                return Some(
                    match ctx.kind {
                        DiscoveryType::Publication => DiscoveryEvent::UndiscoveredPublication { key },
                        _ => DiscoveryEvent::UndiscoveredSubscription { key },
                    },
                );
            }
            let topic_name = match &e.topic_name {
                Some(t) => match utf8_string(t.as_slice()) {
                    Some(s) => s,
                    None => return None,
                },
                None => return None,
            };
            let data_type = match &e.data_type {
                Some(t) => match utf8_string(t.as_slice()) {
                    Some(s) => s,
                    None => return None,
                },
                None => return None,
            };
            let participant_key = key_to_string(&e.participant_key);
            let keyless = is_keyless(&e.key);
            let type_info = resolve_type_info(e.type_info);
            let entity = DdsEntity {
                key,
                participant_key,
                topic_name,
                data_type,
                type_info,
                keyless,
                qos: e.qos,
                routes: Vec::new(),
            };
            Some(
                match ctx.kind {
                    DiscoveryType::Publication => DiscoveryEvent::DiscoveredPublication { entity },
                    _ => DiscoveryEvent::DiscoveredSubscription { entity },
                },
            )
        },
        DiscoverySample::Participant(p) => {
            if ctx.kind != DiscoveryType::Participant || same_guid(&p.key, &ctx.own_guid) {
                return None;
            }
            let key = key_to_string(&p.key);
            if p.alive {
                Some(DiscoveryEvent::DiscoveredParticipant { entity: DdsParticipant { key, qos: p.qos } })
            } else {
                Some(DiscoveryEvent::UndiscoveredParticipant { key })
            }
        },
    }
}

/// The events of a batch of samples, in the order of the samples.
pub fn process_samples(ctx: &DiscoveryContext, batch: Vec<DiscoverySample>) -> (r: Vec<
    DiscoveryEvent,
>)
    ensures
        events_view(r@) == spec_events(*ctx, batch@),
{
    let ghost orig = batch@;
    let mut batch = batch;
    let mut events: Vec<DiscoveryEvent> = Vec::new();
    let mut done: usize = 0;
    let total: usize = batch.len();
    proof {
        assert(orig.take(0) =~= Seq::<DiscoverySample>::empty());
        assert(events_view(events@) =~= Seq::<EventSpec>::empty());
    }
    while batch.len() > 0
        invariant
            0 <= done <= orig.len(),
            orig.len() == total,
            batch@ == orig.skip(done as int),
            events_view(events@) == spec_events(*ctx, orig.take(done as int)),
        decreases batch.len(),
    {
        let ghost before = events@;
        let s = batch.remove(0);
        proof {
            assert(orig.take(done + 1).drop_last() =~= orig.take(done as int));
            assert(orig.take(done + 1).last() == s);
            assert(batch@ =~= orig.skip(done + 1));
        }
        match classify(ctx, s) {
            Some(e) => {
                events.push(e);
                assert(events_view(events@) =~= events_view(before) + seq![e@]);
            },
            None => {
                assert(events_view(events@) =~= events_view(before) + Seq::<EventSpec>::empty());
            },
        }
        done = done + 1;
    }
    proof {
        assert(orig.take(done as int) =~= orig);
    }
    events
}

/// How many samples one callback invocation takes out of `len` waiting ones.
pub open spec fn batch_len(len: nat) -> nat {
    if len < MAX_SAMPLES {
        len
    } else {
        MAX_SAMPLES as nat
    }
}

/// Takes the next batch of waiting samples, within the per-invocation budget.
pub fn take_batch(pending: &mut Vec<DiscoverySample>) -> (batch: Vec<DiscoverySample>)
    ensures
        batch@ == old(pending)@.take(batch_len(old(pending)@.len()) as int),
        final(pending)@ == old(pending)@.skip(batch_len(old(pending)@.len()) as int),
{
    let n: usize = if pending.len() < MAX_SAMPLES {
        pending.len()
    } else {
        MAX_SAMPLES
    };
    let mut rest = pending.split_off(n);
    core::mem::swap(pending, &mut rest);
    rest
}

/// One invocation of a discovery callback: takes a batch of waiting samples
/// and returns the events it gives rise to, in order.
pub fn on_data(ctx: &DiscoveryContext, pending: &mut Vec<DiscoverySample>) -> (r: Vec<DiscoveryEvent>)
    ensures
        events_view(r@) == spec_events(*ctx, old(pending)@.take(batch_len(old(pending)@.len()) as int)),
        final(pending)@ == old(pending)@.skip(batch_len(old(pending)@.len()) as int),
        old(pending)@.len() > MAX_SAMPLES ==> final(pending)@.len() > 0,
{
    let batch = take_batch(pending);
    process_samples(ctx, batch)
}

/// Runs callback invocations until no sample waits; returns the events and
/// the number of invocations, the fewest that the per-invocation budget
/// allows (the length divided by the budget, rounded up).
pub fn drain_discovery(ctx: &DiscoveryContext, pending: Vec<DiscoverySample>) -> (r: (Vec<DiscoveryEvent>, usize))
    ensures
        events_view(r.0@) == spec_events(*ctx, pending@),
        pending@.len() <= r.1 * MAX_SAMPLES,
        r.1 > 0 ==> (r.1 - 1) * MAX_SAMPLES < pending@.len(),
        pending@.len() == 0 ==> r.1 == 0,
        pending@.len() > MAX_SAMPLES ==> r.1 > 1,
{
    let ghost orig = pending@;
    let mut pending = pending;
    let mut events: Vec<DiscoveryEvent> = Vec::new();
    let mut calls: usize = 0;
    let ghost mut done: int = 0;
    let total: usize = pending.len();
    proof {
        assert(orig.take(0) =~= Seq::<DiscoverySample>::empty());
        assert(events_view(events@) =~= Seq::<EventSpec>::empty());
    }
    while pending.len() > 0
        invariant
            0 <= done <= orig.len(),
            orig.len() == total,
            pending@ == orig.skip(done),
            events_view(events@) == spec_events(*ctx, orig.take(done)),
            calls <= done,
            done < orig.len() ==> done == calls * MAX_SAMPLES,
            done <= calls * MAX_SAMPLES,
            calls > 0 ==> (calls - 1) * MAX_SAMPLES < done,
        decreases pending.len(),
    {
        let ghost before = events@;
        let ghost n = batch_len(pending@.len()) as int;
        let mut batch = on_data(ctx, &mut pending);
        proof {
            lemma_events_concat(*ctx, orig.take(done), orig.subrange(done, done + n));
            assert(orig.take(done) + orig.subrange(done, done + n) =~= orig.take(done + n));
            assert(orig.skip(done).take(n) =~= orig.subrange(done, done + n));
            assert(pending@ =~= orig.skip(done + n));
        }
        let ghost got = batch@;
        events.append(&mut batch);
        assert(events@ == before + got);
        assert(events_view(events@) =~= events_view(before) + events_view(got));
        proof {
            done = done + n;
        }
        calls = calls + 1;
    }
    proof {
        assert(orig.take(done) =~= orig);
    }
    (events, calls)
}

/// The events of consecutive samples are the events of each part, one after
/// the other.
pub proof fn lemma_events_concat(ctx: DiscoveryContext, a: Seq<DiscoverySample>, b: Seq<DiscoverySample>)
    ensures
        spec_events(ctx, a + b) == spec_events(ctx, a) + spec_events(ctx, b),
    decreases b.len(),
{
    if b.len() == 0 {
        assert(a + b =~= a);
        assert(spec_events(ctx, a) + spec_events(ctx, b) =~= spec_events(ctx, a));
    } else {
        lemma_events_concat(ctx, a, b.drop_last());
        assert((a + b).drop_last() =~= a + b.drop_last());
        assert((a + b).last() == b.last());
        assert(spec_events(ctx, a + b) =~= spec_events(ctx, a) + spec_events(ctx, b));
    }
}

/// Whether a sample comes from the bridge's own participant.
pub open spec fn from_own_participant(ctx: DiscoveryContext, s: DiscoverySample) -> bool {
    match s {
        DiscoverySample::Endpoint(e) => e.participant_instance_handle == ctx.own_instance_handle,
        DiscoverySample::Participant(p) => p.key@ == ctx.own_guid@,
    }
}

/// Whether a sample announces, or withdraws, an endpoint on a builtin topic.
pub open spec fn on_builtin_topic(s: DiscoverySample) -> bool {
    match s {
        DiscoverySample::Endpoint(e) => names_builtin_topic(e.topic_name),
        DiscoverySample::Participant(_) => false,
    }
}

/// How many samples give rise to no event.
pub open spec fn count_filtered(ctx: DiscoveryContext, s: Seq<DiscoverySample>) -> nat
    decreases s.len(),
{
    if s.len() == 0 {
        0
    } else {
        count_filtered(ctx, s.drop_last()) + if spec_classify(ctx, s.last()) is None {
            1nat
        } else {
            0nat
        }
    }
}

/// Samples that all give rise to no event give rise to no events together.
pub proof fn lemma_all_filtered(ctx: DiscoveryContext, s: Seq<DiscoverySample>)
    requires
        forall|i: int| 0 <= i < s.len() ==> spec_classify(ctx, #[trigger] s[i]) is None,
    ensures
        spec_events(ctx, s).len() == 0,
    decreases s.len(),
{
    if s.len() > 0 {
        lemma_all_filtered(ctx, s.drop_last());
        assert(spec_classify(ctx, s[s.len() - 1]) is None);
    }
}

/// No sample of the bridge's own participant gives rise to an event, alone
/// or among others of the kind.
pub proof fn lemma_own_participant_ignored(ctx: DiscoveryContext, s: Seq<DiscoverySample>)
    requires
        forall|i: int| 0 <= i < s.len() ==> from_own_participant(ctx, #[trigger] s[i]),
    ensures
        forall|i: int| 0 <= i < s.len() ==> spec_classify(ctx, #[trigger] s[i]) is None,
        spec_events(ctx, s).len() == 0,
{
    assert forall|i: int| 0 <= i < s.len() implies spec_classify(ctx, #[trigger] s[i]) is None by {
        assert(from_own_participant(ctx, s[i]));
    }
    lemma_all_filtered(ctx, s);
}

/// No announcement of an endpoint on a builtin topic gives rise to an event.
pub proof fn lemma_builtin_topics_ignored(ctx: DiscoveryContext, s: Seq<DiscoverySample>)
    requires
        forall|i: int| 0 <= i < s.len() ==> on_builtin_topic(#[trigger] s[i]),
    ensures
        forall|i: int| 0 <= i < s.len() ==> spec_classify(ctx, #[trigger] s[i]) is None,
        spec_events(ctx, s).len() == 0,
{
    assert forall|i: int| 0 <= i < s.len() implies spec_classify(ctx, #[trigger] s[i]) is None by {
        assert(on_builtin_topic(s[i]));
    }
    lemma_all_filtered(ctx, s);
}

/// An endpoint is announced keyless exactly when its key's last byte names a
/// kind of entity whose topic has no key.
pub proof fn lemma_keyless_from_key(ctx: DiscoveryContext, s: DiscoverySample)
    requires
        spec_classify(ctx, s) matches Some(EventSpec::Discovered { .. }),
    ensures
        s matches DiscoverySample::Endpoint(e) && (spec_classify(ctx, s) matches Some(
            EventSpec::Discovered { entity, .. },
        ) && entity.keyless <==> (e.key[15] == ENTITY_KIND_WRITER_NO_KEY || e.key[15] == ENTITY_KIND_READER_NO_KEY)),
{
}

/// Samples handed out over several invocations give the events of the whole,
/// in order; every sample gives an event but those filtered out.
pub proof fn lemma_no_sample_lost(ctx: DiscoveryContext, s: Seq<DiscoverySample>, n: int)
    requires
        0 <= n <= s.len(),
    ensures
        spec_events(ctx, s) == spec_events(ctx, s.take(n)) + spec_events(ctx, s.skip(n)),
        spec_events(ctx, s).len() + count_filtered(ctx, s) == s.len(),
{
    lemma_events_concat(ctx, s.take(n), s.skip(n));
    assert(s.take(n) + s.skip(n) =~= s);
    lemma_count(ctx, s);
}

proof fn lemma_count(ctx: DiscoveryContext, s: Seq<DiscoverySample>)
    ensures
        spec_events(ctx, s).len() + count_filtered(ctx, s) == s.len(),
    decreases s.len(),
{
    if s.len() > 0 {
        lemma_count(ctx, s.drop_last());
    }
}

} // verus!
