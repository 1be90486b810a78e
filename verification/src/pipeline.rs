//! The batch transformation: envelope in, ordered event sequence out.
//!
//! Per-record classification is pure and side-effect free, so it is fanned
//! out across worker threads; the results are collected back into input
//! order before aggregation. Aggregation is all-or-nothing: the first
//! classification failure, in record order, aborts the whole batch and no
//! partial event sequence is produced.

use vstd::prelude::*;

use rayon::iter::IntoParallelRefIterator;
use rayon::iter::ParallelIterator;

use crate::envelope::DynamoDBEvent;
use crate::envelope::DynamoDBRecord;
use crate::envelope::event_decodes_to;
use crate::envelope::event_json_wf;
use crate::error::Error;
use crate::event::Event;
use crate::event::EventV;
use crate::event::classified_view;
use crate::event::spec_classify;
use crate::json::JsonValue;

verus! {

/// `r` is the all-or-nothing classification of `records`: on success one
/// event per record, position for position; otherwise the error of the
/// first failing record, and no events at all.
pub open spec fn batch_result_matches(
    r: Result<Vec<Event>, Error>,
    records: Seq<DynamoDBRecord>,
) -> bool {
    &&& (r is Ok <==> forall|i: int|
        0 <= i < records.len() ==> spec_classify(#[trigger] records[i]) is Ok)
    &&& (r matches Ok(events) ==> {
        &&& events@.len() == records.len()
        &&& forall|i: int|
            0 <= i < records.len() ==> spec_classify(#[trigger] records[i]) == Ok::<
                EventV,
                Error,
            >(events@[i]@)
    })
    &&& (r matches Err(e) ==> exists|i: int|
        {
            &&& 0 <= i < records.len()
            &&& spec_classify(#[trigger] records[i]) == Err::<EventV, Error>(e)
            &&& forall|j: int| 0 <= j < i ==> spec_classify(#[trigger] records[j]) is Ok
        })
}

/// Classify every record of the batch on the worker pool.
///
/// Relies on rayon: `par_iter` over a `Vec` is an indexed parallel
/// iterator, and collecting its mapped items into a `Vec` places each
/// result at the position of its input, as rayon's collect consumer writes
/// every item at that item's own index.
#[verifier::external_body]
fn classify_records(records: &Vec<DynamoDBRecord>) -> (r: Vec<Result<Event, Error>>)
    ensures
        r@.len() == records@.len(),
        forall|i: int|
            0 <= i < records@.len() ==> classified_view(#[trigger] r@[i]) == spec_classify(
                records@[i],
            ),
{
    records.par_iter().map(Event::try_from).collect()
}

/// Classify a decoded batch into its ordered event sequence, all or
/// nothing: the first failing record, in input order, fails the batch.
#[verifier::loop_isolation(false)]
pub fn parse_ddb_events(ddb_event: DynamoDBEvent) -> (r: Result<Vec<Event>, Error>)
    ensures
        batch_result_matches(r, ddb_event.records@),
{
    let mut results = classify_records(&ddb_event.records);
    let ghost all: Seq<Result<Event, Error>> = results@;
    let mut events: Vec<Event> = Vec::new();
    while results.len() > 0
        invariant
            events@.len() + results@.len() == all.len(),
            results@ == all.skip(events@.len() as int),
            forall|k: int|
                0 <= k < events@.len() ==> spec_classify(#[trigger] ddb_event.records@[k]) is Ok,
            forall|k: int|
                0 <= k < events@.len() ==> spec_classify(#[trigger] ddb_event.records@[k]) == Ok::<
                    EventV,
                    Error,
                >(events@[k]@),
        decreases results@.len(),
    {
        let ghost i = events@.len() as int;
        proof {
            assert(results@[0] == all[i]);
            assert(all.skip(i).remove(0) =~= all.skip(i + 1));
        }
        match results.remove(0) {
            Ok(e) => events.push(e),
            Err(er) => {
                proof {
                    assert(spec_classify(ddb_event.records@[i]) == Err::<EventV, Error>(er));
                }
                return Err(er);
            },
        }
    }
    Ok(events)
}

/// Transform a generic JSON batch envelope into its ordered event
/// sequence. Phase one decodes the envelope's structural shape; phase two
/// classifies every decoded record, all or nothing.
pub fn json_to_ddb_event_structs(event: &JsonValue) -> (r: Result<Vec<Event>, Error>)
    ensures
        !event_json_wf(*event) ==> (r matches Err(e) && e matches Error::StructuralDecode(_)),
        event_json_wf(*event) ==> exists|e: DynamoDBEvent|
            {
                &&& #[trigger] event_decodes_to(*event, e)
                &&& batch_result_matches(r, e.records@)
            },
{
    match DynamoDBEvent::from_json(event) {
        Ok(ddb_event) => {
            let ghost decoded = ddb_event;
            let res = parse_ddb_events(ddb_event);
            proof {
                assert(event_decodes_to(*event, decoded) && batch_result_matches(
                    res,
                    decoded.records@,
                ));
            }
            res
        },
        Err(e) => Err(e),
    }
}

} // verus!
