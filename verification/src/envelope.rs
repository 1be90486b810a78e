//! The batch envelope and its change records.
//!
//! Phase one of the batch transformation decodes the envelope's structural
//! shape: a batch of records, each with its metadata and nested attribute
//! mappings. Any structural failure aborts the whole batch. Old and new
//! images are kept optional so that a record lacking an image its event kind
//! needs is rejected as a structural failure, never projected from an empty
//! mapping.

use vstd::prelude::*;

use crate::error::Error;
use crate::error::StructuralIssue;
use crate::json::JsonValue;
use crate::json::assoc_find;
use crate::json::assoc_get;
use crate::model::AttrMap;
use crate::model::attr_map_decodes_to;
use crate::model::attr_map_json_wf;
use crate::model::decode_attr_map;

verus! {

/// One batch of change records, in stream order.
pub struct DynamoDBEvent {
    pub records: Vec<DynamoDBRecord>,
}

/// One change record of a batch.
pub struct DynamoDBRecord {
    pub aws_region: String,
    pub dynamodb: DynamoDBStreamRecord,
    pub event_id: String,
    pub event_name: String,
    pub event_source: String,
    pub event_source_arn: String,
    pub event_version: String,
}

/// The stream portion of a change record. A number-valued metadata field
/// carries its decimal rendering; the core never reads its magnitude.
pub struct DynamoDBStreamRecord {
    pub approximate_creation_date_time: Option<String>,
    pub keys: AttrMap,
    pub new_image: Option<AttrMap>,
    pub old_image: Option<AttrMap>,
    pub sequence_number: String,
    pub size_bytes: String,
    pub stream_view_type: String,
}

/// `j` has the shape of a stream record.
pub open spec fn stream_json_wf(j: JsonValue) -> bool {
    match j {
        JsonValue::Obj(ms) => {
            &&& match assoc_find(ms@, "Keys"@) {
                None => true,
                Some(v) => attr_map_json_wf(v),
            }
            &&& match assoc_find(ms@, "NewImage"@) {
                None => true,
                Some(v) => attr_map_json_wf(v),
            }
            &&& match assoc_find(ms@, "OldImage"@) {
                None => true,
                Some(v) => attr_map_json_wf(v),
            }
            &&& assoc_find(ms@, "SequenceNumber"@) matches Some(JsonValue::Str(_))
            &&& assoc_find(ms@, "SizeBytes"@) matches Some(JsonValue::Num(_))
            &&& assoc_find(ms@, "StreamViewType"@) matches Some(JsonValue::Str(_))
            &&& match assoc_find(ms@, "ApproximateCreationDateTime"@) {
                None => true,
                Some(v) => v is Num || v is Null,
            }
        },
        _ => false,
    }
}

/// `r` is the decoding of the stream record `j`. An absent image decodes to
/// nothing; absent keys decode to an empty mapping.
pub open spec fn stream_decodes_to(j: JsonValue, r: DynamoDBStreamRecord) -> bool {
    match j {
        JsonValue::Obj(ms) => {
            &&& match assoc_find(ms@, "Keys"@) {
                None => r.keys@.len() == 0,
                Some(v) => attr_map_decodes_to(v, r.keys@),
            }
            &&& match assoc_find(ms@, "NewImage"@) {
                None => r.new_image is None,
                Some(v) => (r.new_image matches Some(m) && attr_map_decodes_to(v, m@)),
            }
            &&& match assoc_find(ms@, "OldImage"@) {
                None => r.old_image is None,
                Some(v) => (r.old_image matches Some(m) && attr_map_decodes_to(v, m@)),
            }
            &&& (assoc_find(ms@, "SequenceNumber"@) matches Some(JsonValue::Str(s))
                && r.sequence_number@ == s@)
            &&& (assoc_find(ms@, "SizeBytes"@) matches Some(JsonValue::Num(x))
                && r.size_bytes@ == x@)
            &&& (assoc_find(ms@, "StreamViewType"@) matches Some(JsonValue::Str(s))
                && r.stream_view_type@ == s@)
            &&& match assoc_find(ms@, "ApproximateCreationDateTime"@) {
                Some(JsonValue::Num(x)) => (r.approximate_creation_date_time matches Some(y)
                    && y@ == x@),
                _ => r.approximate_creation_date_time is None,
            }
        },
        _ => false,
    }
}

/// `j` has the shape of a change record.
pub open spec fn record_json_wf(j: JsonValue) -> bool {
    match j {
        JsonValue::Obj(ms) => {
            &&& assoc_find(ms@, "awsRegion"@) matches Some(JsonValue::Str(_))
            &&& assoc_find(ms@, "eventID"@) matches Some(JsonValue::Str(_))
            &&& assoc_find(ms@, "eventName"@) matches Some(JsonValue::Str(_))
            &&& assoc_find(ms@, "eventSource"@) matches Some(JsonValue::Str(_))
            &&& assoc_find(ms@, "eventSourceARN"@) matches Some(JsonValue::Str(_))
            &&& assoc_find(ms@, "eventVersion"@) matches Some(JsonValue::Str(_))
            &&& match assoc_find(ms@, "dynamodb"@) {
                Some(v) => stream_json_wf(v),
                None => false,
            }
        },
        _ => false,
    }
}

/// `r` is the decoding of the change record `j`.
pub open spec fn record_decodes_to(j: JsonValue, r: DynamoDBRecord) -> bool {
    match j {
        JsonValue::Obj(ms) => {
            &&& (assoc_find(ms@, "awsRegion"@) matches Some(JsonValue::Str(s))
                && r.aws_region@ == s@)
            &&& (assoc_find(ms@, "eventID"@) matches Some(JsonValue::Str(s))
                && r.event_id@ == s@)
            &&& (assoc_find(ms@, "eventName"@) matches Some(JsonValue::Str(s))
                && r.event_name@ == s@)
            &&& (assoc_find(ms@, "eventSource"@) matches Some(JsonValue::Str(s))
                && r.event_source@ == s@)
            &&& (assoc_find(ms@, "eventSourceARN"@) matches Some(JsonValue::Str(s))
                && r.event_source_arn@ == s@)
            &&& (assoc_find(ms@, "eventVersion"@) matches Some(JsonValue::Str(s))
                && r.event_version@ == s@)
            &&& match assoc_find(ms@, "dynamodb"@) {
                Some(v) => stream_decodes_to(v, r.dynamodb),
                None => false,
            }
        },
        _ => false,
    }
}

/// `j` has the shape of a batch envelope.
pub open spec fn event_json_wf(j: JsonValue) -> bool {
    match j {
        JsonValue::Obj(ms) => match assoc_find(ms@, "Records"@) {
            Some(JsonValue::Arr(items)) => forall|i: int|
                0 <= i < items@.len() ==> record_json_wf(#[trigger] items@[i]),
            _ => false,
        },
        _ => false,
    }
}

/// `e` is the decoding of the batch envelope `j`, record for record, in
/// stream order.
pub open spec fn event_decodes_to(j: JsonValue, e: DynamoDBEvent) -> bool {
    match j {
        JsonValue::Obj(ms) => match assoc_find(ms@, "Records"@) {
            Some(JsonValue::Arr(items)) => {
                &&& e.records@.len() == items@.len()
                &&& forall|i: int|
                    0 <= i < items@.len() ==> record_decodes_to(
                        #[trigger] items@[i],
                        e.records@[i],
                    )
            },
            _ => false,
        },
        _ => false,
    }
}

impl DynamoDBStreamRecord {
    /// Decode the stream portion of a change record.
    pub fn from_json(j: &JsonValue) -> (r: Result<DynamoDBStreamRecord, Error>)
        ensures
            r is Ok <==> stream_json_wf(*j),
            r matches Ok(sr) ==> stream_decodes_to(*j, sr),
            r matches Err(e) ==> (e matches Error::StructuralDecode(_)),
    {
        match j {
            JsonValue::Obj(ms) => {
                let keys = match assoc_get(ms, "Keys") {
                    None => AttrMap::new(),
                    Some(v) => match decode_attr_map(v) {
                        Ok(m) => m,
                        Err(e) => {
                            return Err(e);
                        },
                    },
                };
                let new_image = match assoc_get(ms, "NewImage") {
                    None => None,
                    Some(v) => match decode_attr_map(v) {
                        Ok(m) => Some(m),
                        Err(e) => {
                            return Err(e);
                        },
                    },
                };
                let old_image = match assoc_get(ms, "OldImage") {
                    None => None,
                    Some(v) => match decode_attr_map(v) {
                        Ok(m) => Some(m),
                        Err(e) => {
                            return Err(e);
                        },
                    },
                };
                let sequence_number = match assoc_get(ms, "SequenceNumber") {
                    Some(JsonValue::Str(s)) => s.clone(),
                    _ => {
                        return Err(Error::StructuralDecode(StructuralIssue::StreamRecord));
                    },
                };
                let size_bytes = match assoc_get(ms, "SizeBytes") {
                    Some(JsonValue::Num(x)) => x.clone(),
                    _ => {
                        return Err(Error::StructuralDecode(StructuralIssue::StreamRecord));
                    },
                };
                let stream_view_type = match assoc_get(ms, "StreamViewType") {
                    Some(JsonValue::Str(s)) => s.clone(),
                    _ => {
                        return Err(Error::StructuralDecode(StructuralIssue::StreamRecord));
                    },
                };
                let approximate_creation_date_time = match assoc_get(
                    ms,
                    "ApproximateCreationDateTime",
                ) {
                    None => None,
                    Some(JsonValue::Num(x)) => Some(x.clone()),
                    Some(JsonValue::Null) => None,
                    Some(_) => {
                        return Err(Error::StructuralDecode(StructuralIssue::StreamRecord));
                    },
                };
                Ok(DynamoDBStreamRecord {
                    approximate_creation_date_time,
                    keys,
                    new_image,
                    old_image,
                    sequence_number,
                    size_bytes,
                    stream_view_type,
                })
            },
            _ => Err(Error::StructuralDecode(StructuralIssue::StreamRecord)),
        }
    }
}

impl DynamoDBRecord {
    /// Decode one change record.
    pub fn from_json(j: &JsonValue) -> (r: Result<DynamoDBRecord, Error>)
        ensures
            r is Ok <==> record_json_wf(*j),
            r matches Ok(rec) ==> record_decodes_to(*j, rec),
            r matches Err(e) ==> (e matches Error::StructuralDecode(_)),
    {
        match j {
            JsonValue::Obj(ms) => {
                let aws_region = match assoc_get(ms, "awsRegion") {
                    Some(JsonValue::Str(s)) => s.clone(),
                    _ => {
                        return Err(Error::StructuralDecode(StructuralIssue::Record));
                    },
                };
                let event_id = match assoc_get(ms, "eventID") {
                    Some(JsonValue::Str(s)) => s.clone(),
                    _ => {
                        return Err(Error::StructuralDecode(StructuralIssue::Record));
                    },
                };
                let event_name = match assoc_get(ms, "eventName") {
                    Some(JsonValue::Str(s)) => s.clone(),
                    _ => {
                        return Err(Error::StructuralDecode(StructuralIssue::Record));
                    },
                };
                let event_source = match assoc_get(ms, "eventSource") {
                    Some(JsonValue::Str(s)) => s.clone(),
                    _ => {
                        return Err(Error::StructuralDecode(StructuralIssue::Record));
                    },
                };
                let event_source_arn = match assoc_get(ms, "eventSourceARN") {
                    Some(JsonValue::Str(s)) => s.clone(),
                    _ => {
                        return Err(Error::StructuralDecode(StructuralIssue::Record));
                    },
                };
                let event_version = match assoc_get(ms, "eventVersion") {
                    Some(JsonValue::Str(s)) => s.clone(),
                    _ => {
                        return Err(Error::StructuralDecode(StructuralIssue::Record));
                    },
                };
                let dynamodb = match assoc_get(ms, "dynamodb") {
                    Some(v) => match DynamoDBStreamRecord::from_json(v) {
                        Ok(sr) => sr,
                        Err(e) => {
                            return Err(e);
                        },
                    },
                    None => {
                        return Err(Error::StructuralDecode(StructuralIssue::Record));
                    },
                };
                Ok(DynamoDBRecord {
                    aws_region,
                    dynamodb,
                    event_id,
                    event_name,
                    event_source,
                    event_source_arn,
                    event_version,
                })
            },
            _ => Err(Error::StructuralDecode(StructuralIssue::Record)),
        }
    }
}

impl DynamoDBEvent {
    /// Decode the batch envelope.
    #[verifier::loop_isolation(false)]
    pub fn from_json(j: &JsonValue) -> (r: Result<DynamoDBEvent, Error>)
        ensures
            r is Ok <==> event_json_wf(*j),
            r matches Ok(e) ==> event_decodes_to(*j, e),
            r matches Err(e) ==> (e matches Error::StructuralDecode(_)),
    {
        match j {
            JsonValue::Obj(ms) => match assoc_get(ms, "Records") {
                Some(JsonValue::Arr(items)) => {
                    let mut records: Vec<DynamoDBRecord> = Vec::new();
                    let mut i: usize = 0;
                    while i < items.len()
                        invariant
                            0 <= i <= items@.len(),
                            records@.len() == i,
                            forall|k: int| 0 <= k < i ==> record_json_wf(#[trigger] items@[k]),
                            forall|k: int|
                                0 <= k < i ==> record_decodes_to(
                                    #[trigger] items@[k],
                                    records@[k],
                                ),
                        decreases items@.len() - i,
                    {
                        match DynamoDBRecord::from_json(&items[i]) {
                            Ok(rec) => records.push(rec),
                            Err(e) => {
                                return Err(e);
                            },
                        }
                        i += 1;
                    }
                    Ok(DynamoDBEvent { records })
                },
                _ => Err(Error::StructuralDecode(StructuralIssue::Envelope)),
            },
            _ => Err(Error::StructuralDecode(StructuralIssue::Envelope)),
        }
    }
}

} // verus!
