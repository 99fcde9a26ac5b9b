//! Draft extractions: items (decisions, risks, questions, ...) drawn from a
//! transcript that wait to be promoted to entities or discarded.
use vstd::prelude::*;

use crate::store::entities::EntityRow;
use crate::store::error::StoreError;
use crate::text::{push_str, str_eq};

verus! {

/// A flat row representing a draft extraction.
///
/// `confidence` holds the IEEE-754 bit pattern of the confidence score
/// (`f64::to_bits`).
#[derive(Debug, Clone)]
pub struct ExtractionRow {
    pub id: String,
    pub entity_type: String,
    pub title: String,
    pub speech_act: Option<String>,
    pub extraction_status: String,
    pub source_transcript_id: Option<String>,
    pub source_span_start: Option<i64>,
    pub source_span_end: Option<i64>,
    pub confidence: Option<u64>,
    pub created_at: String,
    pub metadata: Option<String>,
}

/// Whether two optional strings have equal views.
pub open spec fn same_opt(a: Option<String>, b: Option<String>) -> bool {
    match (a, b) {
        (Some(x), Some(y)) => x@ == y@,
        (None, None) => true,
        _ => false,
    }
}

fn copy_opt(a: &Option<String>) -> (b: Option<String>)
    ensures
        same_opt(*a, b),
{
    match a {
        Some(s) => Some(s.clone()),
        None => None,
    }
}

/// Promote the draft extraction `id`, given the row the store found for it:
/// a missing row is `EntityNotFound` with the ID; a row that is not a draft
/// is `EntityNotFound` naming its status; a draft comes back with status
/// `promoted`, its other fields unchanged.
pub fn promote(id: &str, found: Option<ExtractionRow>) -> (r: Result<ExtractionRow, StoreError>)
    ensures
        match found {
            None => r matches Err(StoreError::EntityNotFound(m)) && m@ == id@,
            Some(row) => if row.extraction_status@ != "draft"@ {
                r matches Err(StoreError::EntityNotFound(m))
                    && m@ == "extraction "@ + id@ + " is not a draft (status: "@ + row.extraction_status@ + ")"@
            } else {
                r matches Ok(p) && p.extraction_status@ == "promoted"@ && p.id == row.id
                    && p.entity_type == row.entity_type && p.title == row.title
                    && p.speech_act == row.speech_act && p.source_transcript_id == row.source_transcript_id
                    && p.source_span_start == row.source_span_start && p.source_span_end == row.source_span_end
                    && p.confidence == row.confidence && p.created_at == row.created_at
                    && p.metadata == row.metadata
            },
        },
{
    match found {
        None => Err(StoreError::EntityNotFound(id.to_owned())),
        Some(row) => {
            if !str_eq(row.extraction_status.as_str(), "draft") {
                let mut m = "extraction ".to_owned();
                push_str(&mut m, id);
                push_str(&mut m, " is not a draft (status: ");
                push_str(&mut m, row.extraction_status.as_str());
                push_str(&mut m, ")");
                Err(StoreError::EntityNotFound(m))
            } else {
                Ok(ExtractionRow { extraction_status: "promoted".to_owned(), ..row })
            }
        },
    }
}

/// The entity row a promoted extraction becomes, stamped `updated_at`: it
/// keeps the extraction's ID, type, title, creation time, source, span,
/// confidence and metadata, has extraction status `promoted`, and no
/// status, task state or content path.
pub fn promoted_entity(ex: &ExtractionRow, updated_at: &str) -> (e: EntityRow)
    ensures
        e.id@ == ex.id@,
        e.entity_type@ == ex.entity_type@,
        e.title@ == ex.title@,
        e.created_at@ == ex.created_at@,
        e.updated_at@ == updated_at@,
        e.status is None,
        e.task_state is None,
        e.extraction_status matches Some(s) && s@ == "promoted"@,
        same_opt(e.source_transcript_id, ex.source_transcript_id),
        e.source_span_start == ex.source_span_start,
        e.source_span_end == ex.source_span_end,
        e.confidence == ex.confidence,
        e.content_path is None,
        same_opt(e.metadata, ex.metadata),
{
    EntityRow {
        id: ex.id.clone(),
        entity_type: ex.entity_type.clone(),
        title: ex.title.clone(),
        created_at: ex.created_at.clone(),
        updated_at: updated_at.to_owned(),
        status: None,
        task_state: None,
        extraction_status: Some("promoted".to_owned()),
        source_transcript_id: copy_opt(&ex.source_transcript_id),
        source_span_start: ex.source_span_start,
        source_span_end: ex.source_span_end,
        confidence: ex.confidence,
        content_path: None,
        metadata: copy_opt(&ex.metadata),
    }
}

} // verus!
