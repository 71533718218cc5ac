use vstd::prelude::*;
use crate::sample::{
    sat_inc, saturating_inc, spec_borrow_result, DDSRawSample, LoanState, SampleError, SampleLedger, Serdata,
};

verus! {

/// A sample taken from a forwarding reader, with the flag that says whether
/// it carries data.
#[derive(Debug)]
pub struct TakenSample {
    pub valid_data: bool,
    pub serdata: Serdata,
}

/// What the forwarder does with one taken sample.
#[derive(Debug)]
pub enum Forward {
    /// Publish this borrowed sample, then hand it back through `on_published`.
    Publish(DDSRawSample),
    /// The sample carries no data.
    NoData,
    /// The sample cannot be wrapped; it is skipped.
    Failed(SampleError),
}

/// The drain loop of one forwarding reader: the samples it borrowed and gave
/// back, and how many it published, failed to publish and skipped (counts
/// that stop at the largest value).
#[derive(Clone, Copy, Debug, PartialEq, Eq, Structural)]
pub struct Forwarder {
    pub ledger: SampleLedger,
    pub published: u64,
    pub publish_failures: u64,
    pub skipped: u64,
}

/// What taking one sample does: a sample without data changes nothing; a
/// sample that wraps is borrowed and to be published; one that does not is
/// skipped.
pub open spec fn taken_post(f: Forwarder, f2: Forwarder, taken: TakenSample, r: Forward) -> bool {
    &&& f2.published == f.published
    &&& f2.publish_failures == f.publish_failures
    &&& !taken.valid_data ==> r is NoData && f2 == f
    &&& taken.valid_data ==> match r {
        Forward::Publish(s) => spec_borrow_result(f.ledger, taken.serdata) == Ok::<Seq<u8>, SampleError>(
            s.bytes(),
        ) && f2.ledger == (SampleLedger {
            outstanding: (f.ledger.outstanding + 1) as u64,
            borrowed: sat_inc(f.ledger.borrowed),
            released: f.ledger.released,
        }) && f2.skipped == f.skipped,
        Forward::Failed(e) => spec_borrow_result(f.ledger, taken.serdata) == Err::<Seq<u8>, SampleError>(e)
            && f2.ledger == f.ledger && f2.skipped == sat_inc(f.skipped),
        Forward::NoData => false,
    }
}

impl Forwarder {
    /// The forwarder after a borrowed sample has been handed back; `ok` says
    /// whether publishing it succeeded.
    pub open spec fn spec_on_published(self, ok: bool) -> Forwarder {
        Forwarder {
            ledger: SampleLedger {
                outstanding: (self.ledger.outstanding - 1) as u64,
                released: sat_inc(self.ledger.released),
                ..self.ledger
            },
            published: if ok { sat_inc(self.published) } else { self.published },
            publish_failures: if ok { self.publish_failures } else { sat_inc(self.publish_failures) },
            ..self
        }
    }

    pub fn new() -> (r: Forwarder)
        ensures
            r.ledger == SampleLedger::new_spec(),
            r.published == 0 && r.publish_failures == 0 && r.skipped == 0,
    {
        Forwarder { ledger: SampleLedger::new(), published: 0, publish_failures: 0, skipped: 0 }
    }

    /// Decides what to do with a sample taken from the reader.
    pub fn on_taken(&mut self, taken: TakenSample) -> (r: Forward)
        ensures
            taken_post(*old(self), *final(self), taken, r),
    {
        if !taken.valid_data {
            return Forward::NoData;
        }
        match self.ledger.borrow(taken.serdata) {
            Ok(s) => Forward::Publish(s),
            Err(e) => {
                self.skipped = saturating_inc(self.skipped);
                Forward::Failed(e)
            },
        }
    }

    /// Hands back a published sample; `ok` says whether publishing succeeded.
    pub fn on_published(&mut self, sample: DDSRawSample, ok: bool)
        requires
            old(self).ledger.outstanding > 0,
        ensures
            *final(self) == old(self).spec_on_published(ok),
    {
        self.ledger.release(sample);
        if ok {
            self.published = saturating_inc(self.published);
        } else {
            self.publish_failures = saturating_inc(self.publish_failures);
        }
    }
}

/// A borrowed sample is given back exactly once whether publishing it
/// succeeded or failed: either way the ledger ends the same, with one sample
/// fewer outstanding.
pub proof fn lemma_released_once_either_way(f: Forwarder)
    requires
        f.ledger.outstanding > 0,
    ensures
        f.spec_on_published(true).ledger == f.spec_on_published(false).ledger,
        f.spec_on_published(true).ledger.outstanding == f.ledger.outstanding - 1,
        f.spec_on_published(true).ledger.borrowed == f.ledger.borrowed,
        f.spec_on_published(true).ledger.released == sat_inc(f.ledger.released),
{
}

/// A sample lent as raw memory whose type gives no way to serialize it is
/// skipped with that error, whatever the forwarder's state; nothing is
/// borrowed, so the next sample can be taken.
pub proof fn lemma_unserializable_sample_skipped(f: Forwarder, f2: Forwarder, taken: TakenSample, r: Forward)
    requires
        taken.valid_data,
        taken.serdata matches Serdata::Loaned { state: LoanState::RawData, reserialized: None },
        taken_post(f, f2, taken, r),
    ensures
        r matches Forward::Failed(SampleError::IncompleteTypeInfo),
        f2.ledger == f.ledger,
        f2.skipped == sat_inc(f.skipped),
{
}

} // verus!
