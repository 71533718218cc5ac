use dds_bridge::endpoints::{
    create_forwarding_dds_reader, create_forwarding_dds_writer, created, delete_dds_entity,
    get_guid, serialize_entity_guid, topic_plan, DdsError, DdsOp, TopicPlan,
    DDS_RETCODE_ALREADY_DELETED, HISTORICAL_DATA_WAIT_NS, TYPE_RESOLUTION_TIMEOUT_NS,
};
use dds_bridge::discovery::TypeInfo;
use dds_bridge::forwarder::{Forward, Forwarder, TakenSample};
use dds_bridge::periodic::{PeriodicForwarder, PeriodicTask, TickAction};
use dds_bridge::qos::{
    periodic_reader_qos, writer_qos, DurabilityKind, History, HistoryKind, Qos, Reliability,
    ReliabilityKind,
};
use dds_bridge::sample::{LoanState, SampleError, SampleLedger, Serdata};

fn best_effort_qos() -> Qos {
    Qos {
        reliability: Some(Reliability { kind: ReliabilityKind::BestEffort, max_blocking_time: 5 }),
        history: Some(History { kind: HistoryKind::KeepAll, depth: 0 }),
        durability: Some(DurabilityKind::TransientLocal),
        partition: Some(vec!["p1".to_string(), "p2".to_string()]),
        user_data: Some(vec![1, 2, 3]),
        deadline: Some(1_000_000),
        ..Qos::new()
    }
}

#[test]
fn writer_drops_best_effort_reliability() {
    let plan = create_forwarding_dds_writer(Ok(12), best_effort_qos()).unwrap();
    assert_eq!(plan.topic, 12);
    assert_eq!(plan.qos.reliability, None);
    assert_eq!(plan.qos.history, best_effort_qos().history);
    assert_eq!(plan.qos.durability, Some(DurabilityKind::TransientLocal));
    assert_eq!(plan.qos.partition, best_effort_qos().partition);
    assert_eq!(plan.qos.deadline, Some(1_000_000));
    let reliable = Qos {
        reliability: Some(Reliability { kind: ReliabilityKind::Reliable, max_blocking_time: 7 }),
        ..Qos::new()
    };
    assert_eq!(writer_qos(reliable.clone()), reliable);
    let err = DdsError { op: DdsOp::CreateTopic, code: -3 };
    assert_eq!(create_forwarding_dds_writer(Err(err), reliable.clone()), Err(err));
}

#[test]
fn reader_plans_by_period() {
    let q = best_effort_qos();
    let listening = create_forwarding_dds_reader(Ok(4), q.clone(), None).unwrap();
    assert!(listening.listener);
    assert_eq!(listening.qos, q);
    assert_eq!(listening.historical_wait_ns, Some(HISTORICAL_DATA_WAIT_NS));
    assert_eq!(HISTORICAL_DATA_WAIT_NS, 100_000_000);
    let polled = create_forwarding_dds_reader(Ok(4), q.clone(), Some(250_000_000)).unwrap();
    assert!(!polled.listener);
    assert_eq!(polled.period_ns, 250_000_000);
    assert_eq!(polled.qos.history, Some(History { kind: HistoryKind::KeepLast, depth: 1 }));
    assert_eq!(polled.qos.reliability, q.reliability);
    assert_eq!(polled.historical_wait_ns, None);
    assert_eq!(polled.qos.partition, q.partition);
    assert_eq!(polled.qos.user_data, q.user_data);
    assert_eq!(periodic_reader_qos(q.clone()), polled.qos);
    let err = DdsError { op: DdsOp::CreateTopic, code: -1 };
    assert_eq!(create_forwarding_dds_reader(Err(err), q.clone(), None), Err(err));
}

#[test]
fn topics_fall_back_to_blobs() {
    assert_eq!(topic_plan(&None, true), TopicPlan::Blob { keyless: true });
    assert_eq!(topic_plan(&None, false), TopicPlan::Blob { keyless: false });
    assert_eq!(
        topic_plan(&Some(TypeInfo { handle: 8 }), true),
        TopicPlan::Typed { type_info: 8, timeout_ns: TYPE_RESOLUTION_TIMEOUT_NS }
    );
    assert_eq!(TYPE_RESOLUTION_TIMEOUT_NS, 500_000_000);
}

#[test]
fn return_codes_become_results() {
    assert_eq!(created(DdsOp::CreateReader, 17), Ok(17));
    assert_eq!(created(DdsOp::CreateWriter, 0), Ok(0));
    assert_eq!(
        created(DdsOp::CreateWriter, -4),
        Err(DdsError { op: DdsOp::CreateWriter, code: -4 })
    );
    assert_eq!(DdsError { op: DdsOp::CreateTopic, code: -1 }.context(), "Error creating DDS Topic");
    assert_eq!(DdsError { op: DdsOp::CreateReader, code: -1 }.context(), "Error creating DDS Reader");
    assert_eq!(DdsError { op: DdsOp::CreateWriter, code: -1 }.context(), "Error creating DDS Writer");
}

#[test]
fn deletion_is_idempotent() {
    assert_eq!(delete_dds_entity(0), Ok(()));
    assert_eq!(delete_dds_entity(DDS_RETCODE_ALREADY_DELETED), Ok(()));
    assert_eq!(delete_dds_entity(-3), Err(DdsError { op: DdsOp::Delete, code: -3 }));
}

#[test]
fn guid_text() {
    let guid = [0xde, 0xad, 0xbe, 0xef, 0, 0, 0, 0, 0, 0, 0, 0, 0, 0, 1, 0xc1];
    let ok = get_guid(0, &guid);
    assert_eq!(ok, Ok("deadbeef0000000000000000000001c1".to_string()));
    assert_eq!(serialize_entity_guid(&ok), "deadbeef0000000000000000000001c1");
    let err = get_guid(-2, &guid);
    assert_eq!(err, Err(DdsError { op: DdsOp::GetGuid, code: -2 }));
    assert_eq!(serialize_entity_guid(&err), "UNKOWN_GUID");
}

#[test]
fn serialized_samples_are_wrapped() {
    let s = SampleLedger::new().borrow(Serdata::Serialized { buffer: vec![0, 1, 0, 0, 0xab, 0xcd] }).unwrap();
    assert_eq!(s.data_as_slice(), &[0, 1, 0, 0, 0xab, 0xcd]);
    assert_eq!(s.payload_as_slice(), &[0xab, 0xcd]);
    assert_eq!(s.hex_encode(), "00010000abcd");
    let loaned = SampleLedger::new().borrow(Serdata::Loaned {
        state: LoanState::RawData,
        reserialized: Some(vec![0, 1, 0, 0, 7]),
    })
    .unwrap();
    assert_eq!(loaned.payload_as_slice(), &[7]);
}

#[test]
fn loaned_sample_without_serializer_fails() {
    let r = SampleLedger::new().borrow(Serdata::Loaned { state: LoanState::RawData, reserialized: None });
    assert_eq!(r.unwrap_err(), SampleError::IncompleteTypeInfo);
    let r = SampleLedger::new().borrow(Serdata::Loaned { state: LoanState::Other, reserialized: Some(vec![1]) });
    assert_eq!(r.unwrap_err(), SampleError::UnexpectedLoanState);
    assert_eq!(
        SampleError::IncompleteTypeInfo.message(),
        "Received sample from DDS contains a loan for which incomplete type information is held"
    );
    assert_eq!(
        SampleError::UnexpectedLoanState.message(),
        "Received sample from DDS contains a loan with an unexpected sample state"
    );
}

#[test]
fn ledger_counts_borrows_and_releases() {
    let mut l = SampleLedger::new();
    let s = l.borrow(Serdata::Serialized { buffer: vec![1, 2, 3, 4] }).unwrap();
    assert!(l.borrow(Serdata::Loaned { state: LoanState::RawData, reserialized: None }).is_err());
    assert_eq!((l.outstanding, l.borrowed, l.released), (1, 1, 0));
    l.release(s);
    assert_eq!((l.outstanding, l.borrowed, l.released), (0, 1, 1));
}

fn taken(buffer: Vec<u8>) -> TakenSample {
    TakenSample { valid_data: true, serdata: Serdata::Serialized { buffer } }
}

#[test]
fn released_once_whatever_publishing_did() {
    let mut f = Forwarder::new();
    for ok in [true, false, true] {
        match f.on_taken(taken(vec![0, 0, 0, 0, 9])) {
            Forward::Publish(s) => {
                assert_eq!(s.payload_as_slice(), &[9]);
                f.on_published(s, ok);
            }
            other => panic!("unexpected {:?}", other),
        }
        assert_eq!(f.ledger.borrowed, f.ledger.released);
        assert_eq!(f.ledger.outstanding, 0);
    }
    assert_eq!(f.ledger.released, 3);
    assert_eq!((f.published, f.publish_failures), (2, 1));
    assert!(matches!(
        f.on_taken(TakenSample { valid_data: false, serdata: Serdata::Serialized { buffer: vec![] } }),
        Forward::NoData
    ));
    let skipped = TakenSample {
        valid_data: true,
        serdata: Serdata::Loaned { state: LoanState::RawData, reserialized: None },
    };
    assert!(matches!(f.on_taken(skipped), Forward::Failed(SampleError::IncompleteTypeInfo)));
    assert_eq!(f.skipped, 1);
    assert_eq!((f.ledger.borrowed, f.ledger.released), (3, 3));
}

#[test]
fn periodic_task_stops_on_recycled_handle() {
    let mut t = PeriodicTask::new(5, 1000);
    assert_eq!(t.on_tick(Some(1000)), TickAction::Drain);
    assert_eq!(t.on_tick(Some(1000)), TickAction::Drain);
    assert_eq!(t.on_tick(Some(1001)), TickAction::Stop);
    assert_eq!(t.on_tick(Some(1000)), TickAction::Stop);
    assert!(t.stopped);
    let mut gone = PeriodicTask::new(5, 1000);
    assert_eq!(gone.on_tick(None), TickAction::Stop);
}

#[test]
fn periodic_forwarder_follows_the_plan() {
    let q = Qos::new();
    let listening = create_forwarding_dds_reader(Ok(4), q.clone(), None).unwrap();
    assert!(PeriodicForwarder::start(&listening, 9, 1000).is_none());
    let polled = create_forwarding_dds_reader(Ok(4), q.clone(), Some(10)).unwrap();
    let mut p = PeriodicForwarder::start(&polled, 9, 1000).unwrap();
    assert_eq!(p.period_ns, 10);
    assert_eq!(p.on_tick(Some(1000)), TickAction::Drain);
    match p.on_taken(taken(vec![0, 0, 0, 0, 1, 2])) {
        Forward::Publish(s) => p.on_published(s, false),
        other => panic!("unexpected {:?}", other),
    }
    assert_eq!((p.forwarder.ledger.outstanding, p.forwarder.ledger.released), (0, 1));
    assert_eq!(p.forwarder.publish_failures, 1);
    assert_eq!(p.on_tick(Some(2000)), TickAction::Stop);
    assert!(p.task.stopped);
    assert_eq!(p.on_tick(Some(1000)), TickAction::Stop);
}

#[test]
fn full_ledger_refuses_to_borrow() {
    let mut l = SampleLedger { outstanding: u64::MAX, borrowed: 3, released: 0 };
    let r = l.borrow(Serdata::Serialized { buffer: vec![1, 2, 3, 4] });
    assert_eq!(r.unwrap_err(), SampleError::TooManyBorrowed);
    assert_eq!(l.outstanding, u64::MAX);
    let r = l.borrow(Serdata::Loaned { state: LoanState::RawData, reserialized: None });
    assert_eq!(r.unwrap_err(), SampleError::IncompleteTypeInfo);
    let mut counted = SampleLedger { outstanding: 0, borrowed: u64::MAX, released: u64::MAX };
    let s = counted.borrow(Serdata::Serialized { buffer: vec![0; 4] }).unwrap();
    counted.release(s);
    assert_eq!((counted.outstanding, counted.borrowed, counted.released), (0, u64::MAX, u64::MAX));
    assert_eq!(
        SampleError::TooManyBorrowed.message(),
        "Too many samples borrowed from DDS are still to be given back"
    );
}
