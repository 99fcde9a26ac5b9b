//! The processing log: which processes (extraction, summarisation, ...)
//! have run against which entities, and what is still waiting for one.
use vstd::prelude::*;

use crate::text::{str_eq, strings_view};

verus! {

/// A record of a process that was run against an entity.
#[derive(Debug, Clone)]
pub struct ProcessingRecord {
    pub id: i64,
    pub entity_id: String,
    /// Name of the process: "extraction", "summarization", etc.
    pub process_name: String,
    /// Comma-separated ontology IDs used (if applicable).
    pub ontology_ids: Option<String>,
    pub processed_at: String,
    /// Who ran it: "debrief-processor", "transcript-ingestor", "user", etc.
    pub processed_by: Option<String>,
    /// Comma-separated entity IDs that were created as output.
    pub output_entity_ids: Option<String>,
    /// Freeform notes about the processing.
    pub notes: Option<String>,
}

/// Whether a history holds a run of process `name`.
pub open spec fn has_process(history: Seq<ProcessingRecord>, name: Seq<char>) -> bool {
    exists|k: int| 0 <= k < history.len() && #[trigger] history[k].process_name@ == name
}

/// The IDs whose flag says they were not processed, in order.
pub open spec fn unprocessed_of(ids: Seq<Seq<char>>, processed: Seq<bool>) -> Seq<Seq<char>>
    decreases ids.len(),
{
    if ids.len() == 0 || processed.len() == 0 {
        Seq::empty()
    } else if processed.last() {
        unprocessed_of(ids.drop_last(), processed.drop_last())
    } else {
        unprocessed_of(ids.drop_last(), processed.drop_last()).push(ids.last())
    }
}

/// Whether an entity's processing history holds a run of `process_name`.
pub fn was_processed_by(history: &Vec<ProcessingRecord>, process_name: &str) -> (b: bool)
    ensures
        b == has_process(history@, process_name@),
{
    let n = history.len();
    for i in 0..n
        invariant
            n == history@.len(),
            forall|k: int| 0 <= k < i ==> #[trigger] history@[k].process_name@ != process_name@,
    {
        if str_eq(history[i].process_name.as_str(), process_name) {
            return true;
        }
    }
    false
}

/// Whether an entity's processing history holds an extraction run.
pub fn has_extraction(history: &Vec<ProcessingRecord>) -> (b: bool)
    ensures
        b == has_process(history@, "extraction"@),
{
    was_processed_by(history, "extraction")
}

/// The entities, in order, that have not been processed, given for each
/// whether it was.
pub fn get_unprocessed(ids: &Vec<String>, processed: &Vec<bool>) -> (r: Vec<String>)
    requires
        ids@.len() == processed@.len(),
    ensures
        strings_view(r@) == unprocessed_of(strings_view(ids@), processed@),
{
    let ghost iv = strings_view(ids@);
    let mut r: Vec<String> = Vec::new();
    let n = ids.len();
    for i in 0..n
        invariant
            n == ids@.len() == processed@.len(),
            iv == strings_view(ids@),
            strings_view(r@) == unprocessed_of(iv.take(i as int), processed@.take(i as int)),
    {
        assert(iv.take(i + 1).drop_last() =~= iv.take(i as int));
        assert(processed@.take(i + 1).drop_last() =~= processed@.take(i as int));
        if !processed[i] {
            r.push(ids[i].clone());
            assert(strings_view(r@) =~= unprocessed_of(iv.take(i as int), processed@.take(i as int)).push(iv[i as int]));
        }
    }
    assert(iv.take(n as int) =~= iv);
    assert(processed@.take(n as int) =~= processed@);
    r
}

} // verus!
