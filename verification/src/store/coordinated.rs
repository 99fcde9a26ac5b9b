//! The coordinated write layer's decisions: which event a save logs, and
//! which temporal edges an entity's schedule fields call for.
use vstd::prelude::*;

use crate::store::jsonl::EventType;
use crate::store::types::RelationType;

verus! {

/// The event that saving an entity logs: an update when the entity
/// already existed, else a creation.
pub fn save_event(existed: bool) -> (e: EventType)
    ensures
        e == (if existed { EventType::Updated } else { EventType::Created }),
{
    if existed {
        EventType::Updated
    } else {
        EventType::Created
    }
}

/// The self-referencing temporal edges an entity gets, in order: a cadence,
/// a deadline and a schedule edge, each when the entity has that field.
pub open spec fn temporal_edge_types(has_cadence: bool, has_deadline: bool, has_schedule: bool) -> Seq<RelationType> {
    (if has_cadence { seq![RelationType::HasCadence] } else { Seq::empty() })
        + (if has_deadline { seq![RelationType::HasDeadline] } else { Seq::empty() })
        + (if has_schedule { seq![RelationType::HasSchedule] } else { Seq::empty() })
}

/// The temporal edges to materialise (see `temporal_edge_types`).
pub fn temporal_edges(has_cadence: bool, has_deadline: bool, has_schedule: bool) -> (v: Vec<RelationType>)
    ensures
        v@ == temporal_edge_types(has_cadence, has_deadline, has_schedule),
{
    let mut v: Vec<RelationType> = Vec::new();
    if has_cadence {
        v.push(RelationType::HasCadence);
    }
    if has_deadline {
        v.push(RelationType::HasDeadline);
    }
    if has_schedule {
        v.push(RelationType::HasSchedule);
    }
    assert(v@ =~= temporal_edge_types(has_cadence, has_deadline, has_schedule));
    v
}

} // verus!
