use vstd::prelude::*;
use crate::discovery::{DiscoveryContext, DiscoveryEvent, DiscoveryType};

verus! {

#[verifier::external_type_specification]
#[verifier::external_body]
#[verifier::reject_recursive_types(T)]
pub struct ExSender<T>(flume::Sender<T>);

/// Relies on flume::Sender::try_send: it never blocks, and fails when the
/// channel is full or has no receiver left. Whether it succeeds depends on the
/// channel's state, so nothing is promised of the result.
#[verifier::external_body]
fn try_send(sender: &flume::Sender<DiscoveryEvent>, event: DiscoveryEvent) -> (r: bool) {
    sender.try_send(event).is_ok()
}

/// Hands an event to the channel without blocking; returns whether it was
/// accepted. An event that the channel refuses is dropped.
pub fn send_discovery_event(sender: &flume::Sender<DiscoveryEvent>, event: DiscoveryEvent) -> (r:
    bool) {
    try_send(sender, event)
}

/// The contexts of the three discovery callbacks, one per kind of entity,
/// each knowing the bridge's own participant.
pub fn run_discovery(own_instance_handle: u64, own_guid: [u8; 16]) -> (r: Vec<DiscoveryContext>)
    ensures
        r@ == seq![
            DiscoveryContext { kind: DiscoveryType::Publication, own_instance_handle, own_guid },
            DiscoveryContext { kind: DiscoveryType::Subscription, own_instance_handle, own_guid },
            DiscoveryContext { kind: DiscoveryType::Participant, own_instance_handle, own_guid },
        ],
{
    let mut r: Vec<DiscoveryContext> = Vec::new();
    r.push(DiscoveryContext { kind: DiscoveryType::Publication, own_instance_handle, own_guid });
    r.push(DiscoveryContext { kind: DiscoveryType::Subscription, own_instance_handle, own_guid });
    r.push(DiscoveryContext { kind: DiscoveryType::Participant, own_instance_handle, own_guid });
    assert(r@ =~= seq![
        DiscoveryContext { kind: DiscoveryType::Publication, own_instance_handle, own_guid },
        DiscoveryContext { kind: DiscoveryType::Subscription, own_instance_handle, own_guid },
        DiscoveryContext { kind: DiscoveryType::Participant, own_instance_handle, own_guid },
    ]);
    r
}

} // verus!
