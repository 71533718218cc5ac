use vstd::prelude::*;
use vstd::slice::slice_subrange;
use crate::hexkey::{encode_hex, hex_of};

verus! {

/// How many bytes of protocol header open a serialized sample.
pub const HEADER_LEN: usize = 4;

/// The state of a sample that the middleware lends as raw memory.
#[derive(Clone, Copy, Debug, PartialEq, Eq, Structural)]
pub enum LoanState {
    RawData,
    Other,
}

/// A sample as the middleware handed it over.
#[derive(Debug)]
pub enum Serdata {
    /// A sample that is already a serialized buffer.
    Serialized { buffer: Vec<u8> },
    /// A sample lent as raw memory; `reserialized` is what the type's
    /// serialization function makes of it, `None` where the type offers none.
    Loaned { state: LoanState, reserialized: Option<Vec<u8>> },
}

#[derive(Clone, Copy, Debug, PartialEq, Eq, Structural)]
pub enum SampleError {
    /// The sample is lent as raw memory and its type gives no way to serialize it.
    IncompleteTypeInfo,
    /// The sample is lent in a state other than raw data.
    UnexpectedLoanState,
    /// The ledger already counts as many borrowed samples as it can hold.
    TooManyBorrowed,
}

impl SampleError {
    pub fn message(&self) -> (r: &'static str)
        ensures
            r@ == match self {
                SampleError::IncompleteTypeInfo =>
                    "Received sample from DDS contains a loan for which incomplete type information is held"@,
                SampleError::UnexpectedLoanState =>
                    "Received sample from DDS contains a loan with an unexpected sample state"@,
                SampleError::TooManyBorrowed =>
                    "Too many samples borrowed from DDS are still to be given back"@,
            },
    {
        match self {
            SampleError::IncompleteTypeInfo =>
                "Received sample from DDS contains a loan for which incomplete type information is held",
            SampleError::UnexpectedLoanState =>
                "Received sample from DDS contains a loan with an unexpected sample state",
            SampleError::TooManyBorrowed => "Too many samples borrowed from DDS are still to be given back",
        }
    }
}

/// The buffer that a sample is forwarded as, or why it cannot be.
pub open spec fn spec_sample_bytes(s: Serdata) -> Result<Seq<u8>, SampleError> {
    match s {
        Serdata::Serialized { buffer } => Ok(buffer@),
        Serdata::Loaned { state: LoanState::RawData, reserialized: Some(b) } => Ok(b@),
        Serdata::Loaned { state: LoanState::RawData, reserialized: None } => Err(
            SampleError::IncompleteTypeInfo,
        ),
        Serdata::Loaned { .. } => Err(SampleError::UnexpectedLoanState),
    }
}

/// A serialized sample borrowed from the middleware. Its buffer stays the
/// middleware's; the value only carries the obligation to give it back, which
/// `SampleLedger::release` discharges by taking it.
#[derive(Debug)]
pub struct DDSRawSample {
    data: Vec<u8>,
}

impl DDSRawSample {
    pub closed spec fn bytes(&self) -> Seq<u8> {
        self.data@
    }

    /// Wraps a sample handed over by the middleware; a sample lent as raw
    /// memory is taken in its serialized form.
    pub(crate) fn create(serdata: Serdata) -> (r: Result<DDSRawSample, SampleError>)
        ensures
            match r {
                Ok(s) => spec_sample_bytes(serdata) == Ok::<Seq<u8>, SampleError>(s.bytes()),
                Err(e) => spec_sample_bytes(serdata) == Err::<Seq<u8>, SampleError>(e),
            },
    {
        match serdata {
            Serdata::Serialized { buffer } => Ok(DDSRawSample { data: buffer }),
            Serdata::Loaned { state, reserialized } => {
                if state != LoanState::RawData {
                    Err(SampleError::UnexpectedLoanState)
                } else {
                    match reserialized {
                        Some(b) => Ok(DDSRawSample { data: b }),
                        None => Err(SampleError::IncompleteTypeInfo),
                    }
                }
            },
        }
    }

    /// The whole serialized buffer, header included.
    pub fn data_as_slice(&self) -> (r: &[u8])
        ensures
            r@ == self.bytes(),
    {
        self.data.as_slice()
    }

    /// The data that follows the protocol header.
    pub fn payload_as_slice(&self) -> (r: &[u8])
        requires
            self.bytes().len() >= HEADER_LEN,
        ensures
            r@ == self.bytes().skip(HEADER_LEN as int),
    {
        let d = self.data.as_slice();
        slice_subrange(d, HEADER_LEN, d.len())
    }

    /// The serialized buffer in lowercase hexadecimal.
    pub fn hex_encode(&self) -> (r: String)
        ensures
            r@ == hex_of(self.bytes()),
    {
        encode_hex(self.data.as_slice())
    }
}

/// What borrowing a sample gives: the sample's own outcome, unless the ledger
/// cannot count one more borrowed sample.
pub open spec fn spec_borrow_result(l: SampleLedger, s: Serdata) -> Result<Seq<u8>, SampleError> {
    match spec_sample_bytes(s) {
        Ok(b) => if l.outstanding == u64::MAX {
            Err(SampleError::TooManyBorrowed)
        } else {
            Ok(b)
        },
        Err(e) => Err(e),
    }
}

/// One more, short of the largest value, where a count stops.
pub open spec fn sat_inc(x: u64) -> u64 {
    if x < u64::MAX {
        (x + 1) as u64
    } else {
        x
    }
}

pub fn saturating_inc(x: u64) -> (r: u64)
    ensures
        r == sat_inc(x),
{
    if x < u64::MAX {
        x + 1
    } else {
        x
    }
}

/// Keeps account of the samples borrowed from the middleware: how many are
/// still to be given back, exactly, and how many were borrowed and given back
/// in all (counts that stop at the largest value).
#[derive(Clone, Copy, Debug, PartialEq, Eq, Structural)]
pub struct SampleLedger {
    pub outstanding: u64,
    pub borrowed: u64,
    pub released: u64,
}

impl SampleLedger {
    pub open spec fn new_spec() -> SampleLedger {
        SampleLedger { outstanding: 0, borrowed: 0, released: 0 }
    }

    pub fn new() -> (r: SampleLedger)
        ensures
            r == SampleLedger::new_spec(),
    {
        SampleLedger { outstanding: 0, borrowed: 0, released: 0 }
    }

    /// Wraps a sample and counts it as borrowed; a sample that cannot be
    /// wrapped, or that the ledger could not count, is not borrowed.
    pub fn borrow(&mut self, serdata: Serdata) -> (r: Result<DDSRawSample, SampleError>)
        ensures
            match r {
                Ok(s) => spec_borrow_result(*old(self), serdata) == Ok::<Seq<u8>, SampleError>(
                    s.bytes(),
                ) && *final(self) == (SampleLedger {
                    outstanding: (old(self).outstanding + 1) as u64,
                    borrowed: sat_inc(old(self).borrowed),
                    released: old(self).released,
                }),
                Err(e) => spec_borrow_result(*old(self), serdata) == Err::<Seq<u8>, SampleError>(e)
                    && *final(self) == *old(self),
            },
    {
        match DDSRawSample::create(serdata) {
            Ok(s) => {
                if self.outstanding == u64::MAX {
                    Err(SampleError::TooManyBorrowed)
                } else {
                    self.outstanding = self.outstanding + 1;
                    self.borrowed = saturating_inc(self.borrowed);
                    Ok(s)
                }
            },
            Err(e) => Err(e),
        }
    }

    /// Gives a borrowed sample back. The sample is moved in, so it cannot be
    /// given back twice.
    pub fn release(&mut self, sample: DDSRawSample)
        requires
            old(self).outstanding > 0,
        ensures
            *final(self) == (SampleLedger {
                outstanding: (old(self).outstanding - 1) as u64,
                borrowed: old(self).borrowed,
                released: sat_inc(old(self).released),
            }),
    {
        self.outstanding = self.outstanding - 1;
        self.released = saturating_inc(self.released);
    }
}

} // verus!
