use vstd::prelude::*;
use crate::discovery::TypeInfo;
use crate::hexkey::{hex_of, key_to_string};
use crate::qos::{periodic_reader_qos, spec_periodic_reader_qos, spec_writer_qos, writer_qos, Qos};

verus! {

/// How long the middleware may take to resolve a type description into a
/// topic descriptor, in nanoseconds.
pub const TYPE_RESOLUTION_TIMEOUT_NS: i64 = 500_000_000;

/// How long a new listening reader waits for historical data, in nanoseconds.
pub const HISTORICAL_DATA_WAIT_NS: i64 = 100_000_000;

/// The middleware's return code for an entity that was already deleted.
pub const DDS_RETCODE_ALREADY_DELETED: i32 = -9;

/// The operation that the middleware refused.
#[derive(Clone, Copy, Debug, PartialEq, Eq, Structural)]
pub enum DdsOp {
    CreateTopic,
    CreateReader,
    CreateWriter,
    Delete,
    GetGuid,
}

/// A refusal of the middleware, with its return code.
#[derive(Clone, Copy, Debug, PartialEq, Eq, Structural)]
pub struct DdsError {
    pub op: DdsOp,
    pub code: i32,
}

impl DdsError {
    /// The words that open the error's message; the middleware's text for the
    /// code follows them.
    pub fn context(&self) -> (r: &'static str)
        ensures
            r@ == match self.op {
                DdsOp::CreateTopic => "Error creating DDS Topic"@,
                DdsOp::CreateReader => "Error creating DDS Reader"@,
                DdsOp::CreateWriter => "Error creating DDS Writer"@,
                DdsOp::Delete => "Error deleting DDS entity"@,
                DdsOp::GetGuid => "Error getting GUID of DDS entity"@,
            },
    {
        match self.op {
            DdsOp::CreateTopic => "Error creating DDS Topic",
            DdsOp::CreateReader => "Error creating DDS Reader",
            DdsOp::CreateWriter => "Error creating DDS Writer",
            DdsOp::Delete => "Error deleting DDS entity",
            DdsOp::GetGuid => "Error getting GUID of DDS entity",
        }
    }
}

/// The entity, or the refusal, that a creation's return code stands for.
pub open spec fn spec_created(op: DdsOp, code: i32) -> Result<i32, DdsError> {
    if code >= 0 {
        Ok(code)
    } else {
        Err(DdsError { op, code })
    }
}

/// Reads the return code of a creation: a negative code is a refusal.
pub fn created(op: DdsOp, code: i32) -> (r: Result<i32, DdsError>)
    ensures
        r == spec_created(op, code),
{
    if code >= 0 {
        Ok(code)
    } else {
        Err(DdsError { op, code })
    }
}

/// How a topic is to be created.
#[derive(Clone, Copy, Debug, PartialEq, Eq, Structural)]
pub enum TopicPlan {
    /// From the type description, within the resolution timeout.
    Typed { type_info: u64, timeout_ns: i64 },
    /// As opaque length-prefixed blobs, keeping whether the topic has a key.
    Blob { keyless: bool },
}

pub open spec fn spec_topic_plan(type_info: Option<TypeInfo>, keyless: bool) -> TopicPlan {
    match type_info {
        Some(t) => TopicPlan::Typed { type_info: t.handle, timeout_ns: TYPE_RESOLUTION_TIMEOUT_NS },
        None => TopicPlan::Blob { keyless },
    }
}

/// Chooses how to create a topic: typed when a description is at hand, as
/// opaque blobs otherwise.
pub fn topic_plan(type_info: &Option<TypeInfo>, keyless: bool) -> (r: TopicPlan)
    ensures
        r == spec_topic_plan(*type_info, keyless),
{
    match type_info {
        Some(t) => TopicPlan::Typed { type_info: t.handle, timeout_ns: TYPE_RESOLUTION_TIMEOUT_NS },
        None => TopicPlan::Blob { keyless },
    }
}

/// How a forwarding reader is to be created on a topic.
#[derive(Clone, Debug, PartialEq, Eq)]
pub struct ReaderPlan {
    pub topic: i32,
    pub qos: Qos,
    /// Whether a listener forwards each arrival; otherwise a task polls the
    /// reader once per `period_ns`.
    pub listener: bool,
    pub period_ns: u64,
    /// How long to wait for historical data once the reader exists.
    pub historical_wait_ns: Option<i64>,
}

pub open spec fn spec_reader_plan(topic: i32, qos: Qos, read_period_ns: Option<u64>) -> ReaderPlan {
    match read_period_ns {
        None => ReaderPlan {
            topic,
            qos,
            listener: true,
            period_ns: 0,
            historical_wait_ns: Some(HISTORICAL_DATA_WAIT_NS),
        },
        Some(p) => ReaderPlan {
            topic,
            qos: spec_periodic_reader_qos(qos),
            listener: false,
            period_ns: p,
            historical_wait_ns: None,
        },
    }
}

/// Plans a forwarding reader once its topic was created (or refused): with
/// no period a listener forwards every arrival, with one a polling task
/// forwards the latest sample per period.
pub fn create_forwarding_dds_reader(
    topic: Result<i32, DdsError>,
    qos: Qos,
    read_period_ns: Option<u64>,
) -> (r: Result<ReaderPlan, DdsError>)
    ensures
        match topic {
            Ok(t) => r == Ok::<ReaderPlan, DdsError>(spec_reader_plan(t, qos, read_period_ns)),
            Err(e) => r == Err::<ReaderPlan, DdsError>(e),
        },
{
    let t = match topic {
        Ok(t) => t,
        Err(e) => return Err(e),
    };
    match read_period_ns {
        None => Ok(
            ReaderPlan {
                topic: t,
                qos,
                listener: true,
                period_ns: 0,
                historical_wait_ns: Some(HISTORICAL_DATA_WAIT_NS),
            },
        ),
        Some(p) => Ok(
            ReaderPlan {
                topic: t,
                qos: periodic_reader_qos(qos),
                listener: false,
                period_ns: p,
                historical_wait_ns: None,
            },
        ),
    }
}

/// How a forwarding writer is to be created on a topic.
#[derive(Clone, Debug, PartialEq, Eq)]
pub struct WriterPlan {
    pub topic: i32,
    pub qos: Qos,
}

/// Plans a forwarding writer once its topic was created (or refused); a
/// best-effort reliability gives way to the default.
pub fn create_forwarding_dds_writer(topic: Result<i32, DdsError>, qos: Qos) -> (r: Result<
    WriterPlan,
    DdsError,
>)
    ensures
        match topic {
            Ok(t) => r == Ok::<WriterPlan, DdsError>(WriterPlan { topic: t, qos: spec_writer_qos(qos) }),
            Err(e) => r == Err::<WriterPlan, DdsError>(e),
        },
{
    match topic {
        Ok(t) => Ok(WriterPlan { topic: t, qos: writer_qos(qos) }),
        Err(e) => Err(e),
    }
}

/// The outcome of deleting an entity, from the middleware's return code: an
/// entity already deleted counts as deleted.
pub fn delete_dds_entity(retcode: i32) -> (r: Result<(), DdsError>)
    ensures
        r is Ok <==> (retcode == 0 || retcode == DDS_RETCODE_ALREADY_DELETED),
        r matches Err(e) ==> e == (DdsError { op: DdsOp::Delete, code: retcode }),
{
    if retcode == 0 || retcode == DDS_RETCODE_ALREADY_DELETED {
        Ok(())
    } else {
        Err(DdsError { op: DdsOp::Delete, code: retcode })
    }
}

/// The textual GUID of an entity, from the middleware's return code and the
/// GUID it wrote.
pub fn get_guid(retcode: i32, guid: &[u8; 16]) -> (r: Result<String, DdsError>)
    ensures
        r is Ok <==> retcode == 0,
        r matches Ok(s) ==> s@ == hex_of(guid@),
        r matches Err(e) ==> e == (DdsError { op: DdsOp::GetGuid, code: retcode }),
{
    if retcode == 0 {
        Ok(key_to_string(guid))
    } else {
        Err(DdsError { op: DdsOp::GetGuid, code: retcode })
    }
}

/// The text that stands for an entity's GUID in a status record; a GUID that
/// could not be read is written "UNKOWN_GUID".
pub fn serialize_entity_guid(guid: &Result<String, DdsError>) -> (r: String)
    ensures
        match guid {
            Ok(g) => r@ == g@,
            Err(_) => r@ == "UNKOWN_GUID"@,
        },
{
    match guid {
        Ok(g) => g.clone(),
        Err(_) => "UNKOWN_GUID".to_owned(),
    }
}

} // verus!
