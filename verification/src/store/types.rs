//! The kinds of entity and of relation in a workspace, their names, and
//! the rules attached to each kind: where its content lives, the status it
//! starts with, and whether it carries a content file.
use vstd::prelude::*;

use crate::store::error::StoreError;
use crate::text::{lowercase, push_str, str_eq, to_lowercase};

verus! {

/// The type of an entity.
#[derive(Debug, Clone, Copy, PartialEq, Eq, Structural)]
pub enum EntityType {
    Program,
    Responsibility,
    Objective,
    Workstream,
    Task,
    Meeting,
    Transcript,
    Note,
    Reflection,
    Artifact,
    Reference,
    Decision,
    Risk,
    Blocker,
    Question,
    Insight,
    Person,
}

/// The type of a relation (a directed graph edge) between two entities.
#[derive(Debug, Clone, Copy, PartialEq, Eq, Structural)]
pub enum RelationType {
    BelongsTo,
    RelatesTo,
    Delivers,
    SpawnedFrom,
    ExtractedFrom,
    HasDecision,
    HasRisk,
    BlockedBy,
    Mentions,
    HasCadence,
    HasDeadline,
    HasSchedule,
}

/// The name an entity type displays, as stored in entity rows.
pub open spec fn entity_type_name(t: EntityType) -> Seq<char> {
    match t {
        EntityType::Program => "Program"@,
        EntityType::Responsibility => "Responsibility"@,
        EntityType::Objective => "Objective"@,
        EntityType::Workstream => "Workstream"@,
        EntityType::Task => "Task"@,
        EntityType::Meeting => "Meeting"@,
        EntityType::Transcript => "Transcript"@,
        EntityType::Note => "Note"@,
        EntityType::Reflection => "Reflection"@,
        EntityType::Artifact => "Artifact"@,
        EntityType::Reference => "Reference"@,
        EntityType::Decision => "Decision"@,
        EntityType::Risk => "Risk"@,
        EntityType::Blocker => "Blocker"@,
        EntityType::Question => "Question"@,
        EntityType::Insight => "Insight"@,
        EntityType::Person => "Person"@,
    }
}

/// The entity type whose name is exactly `s`, if any.
pub open spec fn type_named(s: Seq<char>) -> Option<EntityType> {
    if s == "Program"@ {
        Some(EntityType::Program)
    } else if s == "Responsibility"@ {
        Some(EntityType::Responsibility)
    } else if s == "Objective"@ {
        Some(EntityType::Objective)
    } else if s == "Workstream"@ {
        Some(EntityType::Workstream)
    } else if s == "Task"@ {
        Some(EntityType::Task)
    } else if s == "Meeting"@ {
        Some(EntityType::Meeting)
    } else if s == "Transcript"@ {
        Some(EntityType::Transcript)
    } else if s == "Note"@ {
        Some(EntityType::Note)
    } else if s == "Reflection"@ {
        Some(EntityType::Reflection)
    } else if s == "Artifact"@ {
        Some(EntityType::Artifact)
    } else if s == "Reference"@ {
        Some(EntityType::Reference)
    } else if s == "Decision"@ {
        Some(EntityType::Decision)
    } else if s == "Risk"@ {
        Some(EntityType::Risk)
    } else if s == "Blocker"@ {
        Some(EntityType::Blocker)
    } else if s == "Question"@ {
        Some(EntityType::Question)
    } else if s == "Insight"@ {
        Some(EntityType::Insight)
    } else if s == "Person"@ {
        Some(EntityType::Person)
    } else {
        None
    }
}

/// The entity type that a lowercase request word names. The word for each
/// type is its name in lowercase; `Reference` has none.
pub open spec fn type_for_word(s: Seq<char>) -> Option<EntityType> {
    if s == "program"@ {
        Some(EntityType::Program)
    } else if s == "responsibility"@ {
        Some(EntityType::Responsibility)
    } else if s == "objective"@ {
        Some(EntityType::Objective)
    } else if s == "workstream"@ {
        Some(EntityType::Workstream)
    } else if s == "task"@ {
        Some(EntityType::Task)
    } else if s == "meeting"@ {
        Some(EntityType::Meeting)
    } else if s == "transcript"@ {
        Some(EntityType::Transcript)
    } else if s == "note"@ {
        Some(EntityType::Note)
    } else if s == "reflection"@ {
        Some(EntityType::Reflection)
    } else if s == "artifact"@ {
        Some(EntityType::Artifact)
    } else if s == "decision"@ {
        Some(EntityType::Decision)
    } else if s == "risk"@ {
        Some(EntityType::Risk)
    } else if s == "blocker"@ {
        Some(EntityType::Blocker)
    } else if s == "question"@ {
        Some(EntityType::Question)
    } else if s == "insight"@ {
        Some(EntityType::Insight)
    } else if s == "person"@ {
        Some(EntityType::Person)
    } else {
        None
    }
}

/// The entity types that a directory capture accepts, by lowercase word.
pub open spec fn capture_type_for_word(s: Seq<char>) -> Option<EntityType> {
    if s == "note"@ {
        Some(EntityType::Note)
    } else if s == "meeting"@ {
        Some(EntityType::Meeting)
    } else if s == "transcript"@ {
        Some(EntityType::Transcript)
    } else if s == "artifact"@ {
        Some(EntityType::Artifact)
    } else {
        None
    }
}

/// The directory at the project root that holds content of type `t`.
pub open spec fn subdir_name(t: EntityType) -> Seq<char> {
    match t {
        EntityType::Program => "programs"@,
        EntityType::Responsibility => "responsibilities"@,
        EntityType::Objective => "objectives"@,
        EntityType::Workstream => "workstreams"@,
        EntityType::Task => "tasks"@,
        EntityType::Meeting => "meetings"@,
        EntityType::Transcript => "meetings"@,
        EntityType::Note => "notes"@,
        EntityType::Reflection => "reflections"@,
        EntityType::Artifact => "artifacts"@,
        EntityType::Reference => "references"@,
        EntityType::Decision => "derived"@,
        EntityType::Risk => "derived"@,
        EntityType::Blocker => "derived"@,
        EntityType::Question => "derived"@,
        EntityType::Insight => "derived"@,
        EntityType::Person => "people"@,
    }
}

/// Whether entities of type `t` are extracted items (drafts until promoted).
pub open spec fn is_derived(t: EntityType) -> bool {
    t is Decision || t is Risk || t is Blocker || t is Question || t is Insight
}

/// The status, task state and extraction status a new entity of type `t`
/// starts with.
pub open spec fn default_fields(t: EntityType) -> (Option<Seq<char>>, Option<Seq<char>>, Option<Seq<char>>) {
    if t is Program || t is Responsibility || t is Objective || t is Workstream {
        (Some("active"@), None, None)
    } else if t is Task {
        (None, Some("todo"@), None)
    } else if is_derived(t) {
        (None, None, Some("draft"@))
    } else {
        (None, None, None)
    }
}

/// The name a relation type displays.
pub open spec fn relation_name(r: RelationType) -> Seq<char> {
    match r {
        RelationType::BelongsTo => "BelongsTo"@,
        RelationType::RelatesTo => "RelatesTo"@,
        RelationType::Delivers => "Delivers"@,
        RelationType::SpawnedFrom => "SpawnedFrom"@,
        RelationType::ExtractedFrom => "ExtractedFrom"@,
        RelationType::HasDecision => "HasDecision"@,
        RelationType::HasRisk => "HasRisk"@,
        RelationType::BlockedBy => "BlockedBy"@,
        RelationType::Mentions => "Mentions"@,
        RelationType::HasCadence => "HasCadence"@,
        RelationType::HasDeadline => "HasDeadline"@,
        RelationType::HasSchedule => "HasSchedule"@,
    }
}

/// The relation type that a lowercase request word names.
pub open spec fn relation_for_word(s: Seq<char>) -> Option<RelationType> {
    if s == "belongs_to"@ {
        Some(RelationType::BelongsTo)
    } else if s == "relates_to"@ {
        Some(RelationType::RelatesTo)
    } else if s == "delivers"@ {
        Some(RelationType::Delivers)
    } else if s == "spawned_from"@ {
        Some(RelationType::SpawnedFrom)
    } else if s == "extracted_from"@ {
        Some(RelationType::ExtractedFrom)
    } else if s == "has_decision"@ {
        Some(RelationType::HasDecision)
    } else if s == "has_risk"@ {
        Some(RelationType::HasRisk)
    } else if s == "blocked_by"@ {
        Some(RelationType::BlockedBy)
    } else if s == "mentions"@ {
        Some(RelationType::Mentions)
    } else if s == "has_cadence"@ {
        Some(RelationType::HasCadence)
    } else if s == "has_deadline"@ {
        Some(RelationType::HasDeadline)
    } else if s == "has_schedule"@ {
        Some(RelationType::HasSchedule)
    } else {
        None
    }
}

/// Views of `Option<String>` values.
pub open spec fn opt_view(o: Option<String>) -> Option<Seq<char>> {
    match o {
        Some(s) => Some(s@),
        None => None,
    }
}

impl EntityType {
    /// The name of this type (its `Display` form).
    pub fn name(&self) -> (s: &'static str)
        ensures
            s@ == entity_type_name(*self),
    {
        match self {
            EntityType::Program => "Program",
            EntityType::Responsibility => "Responsibility",
            EntityType::Objective => "Objective",
            EntityType::Workstream => "Workstream",
            EntityType::Task => "Task",
            EntityType::Meeting => "Meeting",
            EntityType::Transcript => "Transcript",
            EntityType::Note => "Note",
            EntityType::Reflection => "Reflection",
            EntityType::Artifact => "Artifact",
            EntityType::Reference => "Reference",
            EntityType::Decision => "Decision",
            EntityType::Risk => "Risk",
            EntityType::Blocker => "Blocker",
            EntityType::Question => "Question",
            EntityType::Insight => "Insight",
            EntityType::Person => "Person",
        }
    }

    /// The entity type whose name is exactly `s`; an unknown name is an
    /// `EntityNotFound` error that names it.
    pub fn from_name(s: &str) -> (r: Result<EntityType, StoreError>)
        ensures
            match type_named(s@) {
                Some(t) => r == Ok::<EntityType, StoreError>(t),
                None => r matches Err(StoreError::EntityNotFound(m)) && m@ == "unknown entity type: "@ + s@,
            },
    {
        if str_eq(s, "Program") {
            return Ok(EntityType::Program);
        }
        if str_eq(s, "Responsibility") {
            return Ok(EntityType::Responsibility);
        }
        if str_eq(s, "Objective") {
            return Ok(EntityType::Objective);
        }
        if str_eq(s, "Workstream") {
            return Ok(EntityType::Workstream);
        }
        if str_eq(s, "Task") {
            return Ok(EntityType::Task);
        }
        if str_eq(s, "Meeting") {
            return Ok(EntityType::Meeting);
        }
        if str_eq(s, "Transcript") {
            return Ok(EntityType::Transcript);
        }
        if str_eq(s, "Note") {
            return Ok(EntityType::Note);
        }
        if str_eq(s, "Reflection") {
            return Ok(EntityType::Reflection);
        }
        if str_eq(s, "Artifact") {
            return Ok(EntityType::Artifact);
        }
        if str_eq(s, "Reference") {
            return Ok(EntityType::Reference);
        }
        if str_eq(s, "Decision") {
            return Ok(EntityType::Decision);
        }
        if str_eq(s, "Risk") {
            return Ok(EntityType::Risk);
        }
        if str_eq(s, "Blocker") {
            return Ok(EntityType::Blocker);
        }
        if str_eq(s, "Question") {
            return Ok(EntityType::Question);
        }
        if str_eq(s, "Insight") {
            return Ok(EntityType::Insight);
        }
        if str_eq(s, "Person") {
            return Ok(EntityType::Person);
        }
        let mut m = "unknown entity type: ".to_owned();
        push_str(&mut m, s);
        Err(StoreError::EntityNotFound(m))
    }

    /// The entity type named by a request word, in any letter case; an
    /// unknown word is refused with a message that quotes it.
    pub fn from_word(s: &str) -> (r: Result<EntityType, String>)
        ensures
            match type_for_word(lowercase(s@)) {
                Some(t) => r == Ok::<EntityType, String>(t),
                None => r matches Err(m) && m@ == "Unknown type: "@ + s@,
            },
    {
        let low = to_lowercase(s);
        let l = low.as_str();
        if str_eq(l, "program") {
            return Ok(EntityType::Program);
        }
        if str_eq(l, "responsibility") {
            return Ok(EntityType::Responsibility);
        }
        if str_eq(l, "objective") {
            return Ok(EntityType::Objective);
        }
        if str_eq(l, "workstream") {
            return Ok(EntityType::Workstream);
        }
        if str_eq(l, "task") {
            return Ok(EntityType::Task);
        }
        if str_eq(l, "meeting") {
            return Ok(EntityType::Meeting);
        }
        if str_eq(l, "transcript") {
            return Ok(EntityType::Transcript);
        }
        if str_eq(l, "note") {
            return Ok(EntityType::Note);
        }
        if str_eq(l, "reflection") {
            return Ok(EntityType::Reflection);
        }
        if str_eq(l, "artifact") {
            return Ok(EntityType::Artifact);
        }
        if str_eq(l, "decision") {
            return Ok(EntityType::Decision);
        }
        if str_eq(l, "risk") {
            return Ok(EntityType::Risk);
        }
        if str_eq(l, "blocker") {
            return Ok(EntityType::Blocker);
        }
        if str_eq(l, "question") {
            return Ok(EntityType::Question);
        }
        if str_eq(l, "insight") {
            return Ok(EntityType::Insight);
        }
        if str_eq(l, "person") {
            return Ok(EntityType::Person);
        }
        let mut m = "Unknown type: ".to_owned();
        push_str(&mut m, s);
        Err(m)
    }

    /// The entity type for files captured from a directory: note, meeting,
    /// transcript or artifact, in any letter case.
    pub fn capture_type(s: &str) -> (r: Result<EntityType, String>)
        ensures
            match capture_type_for_word(lowercase(s@)) {
                Some(t) => r == Ok::<EntityType, String>(t),
                None => r matches Err(m) && m@ == "Unknown type '"@ + s@ + "'. Valid: note, meeting, transcript, artifact"@,
            },
    {
        let low = to_lowercase(s);
        let l = low.as_str();
        if str_eq(l, "note") {
            return Ok(EntityType::Note);
        }
        if str_eq(l, "meeting") {
            return Ok(EntityType::Meeting);
        }
        if str_eq(l, "transcript") {
            return Ok(EntityType::Transcript);
        }
        if str_eq(l, "artifact") {
            return Ok(EntityType::Artifact);
        }
        let mut m = "Unknown type '".to_owned();
        push_str(&mut m, s);
        push_str(&mut m, "'. Valid: note, meeting, transcript, artifact");
        Err(m)
    }

    /// The content directory, at the project root, of this type.
    pub fn subdir(&self) -> (s: &'static str)
        ensures
            s@ == subdir_name(*self),
    {
        match self {
            EntityType::Program => "programs",
            EntityType::Responsibility => "responsibilities",
            EntityType::Objective => "objectives",
            EntityType::Workstream => "workstreams",
            EntityType::Task => "tasks",
            EntityType::Meeting => "meetings",
            EntityType::Transcript => "meetings",
            EntityType::Note => "notes",
            EntityType::Reflection => "reflections",
            EntityType::Artifact => "artifacts",
            EntityType::Reference => "references",
            EntityType::Decision => "derived",
            EntityType::Risk => "derived",
            EntityType::Blocker => "derived",
            EntityType::Question => "derived",
            EntityType::Insight => "derived",
            EntityType::Person => "people",
        }
    }

    /// The status, task state and extraction status a new entity of this
    /// type starts with.
    pub fn defaults(&self) -> (d: (Option<String>, Option<String>, Option<String>))
        ensures
            (opt_view(d.0), opt_view(d.1), opt_view(d.2)) == default_fields(*self),
    {
        match self {
            EntityType::Program | EntityType::Responsibility | EntityType::Objective
            | EntityType::Workstream => (Some("active".to_owned()), None, None),
            EntityType::Task => (None, Some("todo".to_owned()), None),
            EntityType::Decision | EntityType::Risk | EntityType::Blocker | EntityType::Question
            | EntityType::Insight => (None, None, Some("draft".to_owned())),
            _ => (None, None, None),
        }
    }

    /// Whether entities of this type get a content file on creation:
    /// all but the extracted kinds.
    pub fn is_content_bearing(&self) -> (b: bool)
        ensures
            b == !is_derived(*self),
    {
        !matches!(self, EntityType::Decision | EntityType::Risk | EntityType::Blocker
            | EntityType::Question | EntityType::Insight)
    }
}

impl RelationType {
    /// The name of this relation type (its `Debug` form).
    pub fn name(&self) -> (s: &'static str)
        ensures
            s@ == relation_name(*self),
    {
        match self {
            RelationType::BelongsTo => "BelongsTo",
            RelationType::RelatesTo => "RelatesTo",
            RelationType::Delivers => "Delivers",
            RelationType::SpawnedFrom => "SpawnedFrom",
            RelationType::ExtractedFrom => "ExtractedFrom",
            RelationType::HasDecision => "HasDecision",
            RelationType::HasRisk => "HasRisk",
            RelationType::BlockedBy => "BlockedBy",
            RelationType::Mentions => "Mentions",
            RelationType::HasCadence => "HasCadence",
            RelationType::HasDeadline => "HasDeadline",
            RelationType::HasSchedule => "HasSchedule",
        }
    }

    /// The relation type named by a request word, in any letter case; an
    /// unknown word is refused with a message that quotes it.
    pub fn from_word(s: &str) -> (r: Result<RelationType, String>)
        ensures
            match relation_for_word(lowercase(s@)) {
                Some(t) => r == Ok::<RelationType, String>(t),
                None => r matches Err(m) && m@ == "Unknown relation type: "@ + s@,
            },
    {
        let low = to_lowercase(s);
        let l = low.as_str();
        if str_eq(l, "belongs_to") {
            return Ok(RelationType::BelongsTo);
        }
        if str_eq(l, "relates_to") {
            return Ok(RelationType::RelatesTo);
        }
        if str_eq(l, "delivers") {
            return Ok(RelationType::Delivers);
        }
        if str_eq(l, "spawned_from") {
            return Ok(RelationType::SpawnedFrom);
        }
        if str_eq(l, "extracted_from") {
            return Ok(RelationType::ExtractedFrom);
        }
        if str_eq(l, "has_decision") {
            return Ok(RelationType::HasDecision);
        }
        if str_eq(l, "has_risk") {
            return Ok(RelationType::HasRisk);
        }
        if str_eq(l, "blocked_by") {
            return Ok(RelationType::BlockedBy);
        }
        if str_eq(l, "mentions") {
            return Ok(RelationType::Mentions);
        }
        if str_eq(l, "has_cadence") {
            return Ok(RelationType::HasCadence);
        }
        if str_eq(l, "has_deadline") {
            return Ok(RelationType::HasDeadline);
        }
        if str_eq(l, "has_schedule") {
            return Ok(RelationType::HasSchedule);
        }
        let mut m = "Unknown relation type: ".to_owned();
        push_str(&mut m, s);
        Err(m)
    }
}

/// Every entity type's name reads back as that type: `from_name` of the
/// name that `name` gives succeeds with the same type.
pub proof fn law_type_name_round_trip(t: EntityType)
    ensures
        type_named(entity_type_name(t)) == Some(t),
{
    reveal_strlit("Program");
    reveal_strlit("Responsibility");
    reveal_strlit("Objective");
    reveal_strlit("Workstream");
    reveal_strlit("Task");
    reveal_strlit("Meeting");
    reveal_strlit("Transcript");
    reveal_strlit("Note");
    reveal_strlit("Reflection");
    reveal_strlit("Artifact");
    reveal_strlit("Reference");
    reveal_strlit("Decision");
    reveal_strlit("Risk");
    reveal_strlit("Blocker");
    reveal_strlit("Question");
    reveal_strlit("Insight");
    reveal_strlit("Person");
    match t {
        EntityType::Program => {
        },
        EntityType::Responsibility => {
            assert("Program"@.len() != "Responsibility"@.len());
        },
        EntityType::Objective => {
            assert("Program"@.len() != "Objective"@.len());
            assert("Responsibility"@.len() != "Objective"@.len());
        },
        EntityType::Workstream => {
            assert("Program"@.len() != "Workstream"@.len());
            assert("Responsibility"@.len() != "Workstream"@.len());
            assert("Objective"@.len() != "Workstream"@.len());
        },
        EntityType::Task => {
            assert("Program"@.len() != "Task"@.len());
            assert("Responsibility"@.len() != "Task"@.len());
            assert("Objective"@.len() != "Task"@.len());
            assert("Workstream"@.len() != "Task"@.len());
        },
        EntityType::Meeting => {
            assert("Program"@[0] != "Meeting"@[0]);
            assert("Responsibility"@.len() != "Meeting"@.len());
            assert("Objective"@.len() != "Meeting"@.len());
            assert("Workstream"@.len() != "Meeting"@.len());
            assert("Task"@.len() != "Meeting"@.len());
        },
        EntityType::Transcript => {
            assert("Program"@.len() != "Transcript"@.len());
            assert("Responsibility"@.len() != "Transcript"@.len());
            assert("Objective"@.len() != "Transcript"@.len());
            assert("Workstream"@[0] != "Transcript"@[0]);
            assert("Task"@.len() != "Transcript"@.len());
            assert("Meeting"@.len() != "Transcript"@.len());
        },
        EntityType::Note => {
            assert("Program"@.len() != "Note"@.len());
            assert("Responsibility"@.len() != "Note"@.len());
            assert("Objective"@.len() != "Note"@.len());
            assert("Workstream"@.len() != "Note"@.len());
            assert("Task"@[0] != "Note"@[0]);
            assert("Meeting"@.len() != "Note"@.len());
            assert("Transcript"@.len() != "Note"@.len());
        },
        EntityType::Reflection => {
            assert("Program"@.len() != "Reflection"@.len());
            assert("Responsibility"@.len() != "Reflection"@.len());
            assert("Objective"@.len() != "Reflection"@.len());
            assert("Workstream"@[0] != "Reflection"@[0]);
            assert("Task"@.len() != "Reflection"@.len());
            assert("Meeting"@.len() != "Reflection"@.len());
            assert("Transcript"@[0] != "Reflection"@[0]);
            assert("Note"@.len() != "Reflection"@.len());
        },
        EntityType::Artifact => {
            assert("Program"@.len() != "Artifact"@.len());
            assert("Responsibility"@.len() != "Artifact"@.len());
            assert("Objective"@.len() != "Artifact"@.len());
            assert("Workstream"@.len() != "Artifact"@.len());
            assert("Task"@.len() != "Artifact"@.len());
            assert("Meeting"@.len() != "Artifact"@.len());
            assert("Transcript"@.len() != "Artifact"@.len());
            assert("Note"@.len() != "Artifact"@.len());
            assert("Reflection"@.len() != "Artifact"@.len());
        },
        EntityType::Reference => {
            assert("Program"@.len() != "Reference"@.len());
            assert("Responsibility"@.len() != "Reference"@.len());
            assert("Objective"@[0] != "Reference"@[0]);
            assert("Workstream"@.len() != "Reference"@.len());
            assert("Task"@.len() != "Reference"@.len());
            assert("Meeting"@.len() != "Reference"@.len());
            assert("Transcript"@.len() != "Reference"@.len());
            assert("Note"@.len() != "Reference"@.len());
            assert("Reflection"@.len() != "Reference"@.len());
            assert("Artifact"@.len() != "Reference"@.len());
        },
        EntityType::Decision => {
            assert("Program"@.len() != "Decision"@.len());
            assert("Responsibility"@.len() != "Decision"@.len());
            assert("Objective"@.len() != "Decision"@.len());
            assert("Workstream"@.len() != "Decision"@.len());
            assert("Task"@.len() != "Decision"@.len());
            assert("Meeting"@.len() != "Decision"@.len());
            assert("Transcript"@.len() != "Decision"@.len());
            assert("Note"@.len() != "Decision"@.len());
            assert("Reflection"@.len() != "Decision"@.len());
            assert("Artifact"@[0] != "Decision"@[0]);
            assert("Reference"@.len() != "Decision"@.len());
        },
        EntityType::Risk => {
            assert("Program"@.len() != "Risk"@.len());
            assert("Responsibility"@.len() != "Risk"@.len());
            assert("Objective"@.len() != "Risk"@.len());
            assert("Workstream"@.len() != "Risk"@.len());
            assert("Task"@[0] != "Risk"@[0]);
            assert("Meeting"@.len() != "Risk"@.len());
            assert("Transcript"@.len() != "Risk"@.len());
            assert("Note"@[0] != "Risk"@[0]);
            assert("Reflection"@.len() != "Risk"@.len());
            assert("Artifact"@.len() != "Risk"@.len());
            assert("Reference"@.len() != "Risk"@.len());
            assert("Decision"@.len() != "Risk"@.len());
        },
        EntityType::Blocker => {
            assert("Program"@[0] != "Blocker"@[0]);
            assert("Responsibility"@.len() != "Blocker"@.len());
            assert("Objective"@.len() != "Blocker"@.len());
            assert("Workstream"@.len() != "Blocker"@.len());
            assert("Task"@.len() != "Blocker"@.len());
            assert("Meeting"@[0] != "Blocker"@[0]);
            assert("Transcript"@.len() != "Blocker"@.len());
            assert("Note"@.len() != "Blocker"@.len());
            assert("Reflection"@.len() != "Blocker"@.len());
            assert("Artifact"@.len() != "Blocker"@.len());
            assert("Reference"@.len() != "Blocker"@.len());
            assert("Decision"@.len() != "Blocker"@.len());
            assert("Risk"@.len() != "Blocker"@.len());
        },
        EntityType::Question => {
            assert("Program"@.len() != "Question"@.len());
            assert("Responsibility"@.len() != "Question"@.len());
            assert("Objective"@.len() != "Question"@.len());
            assert("Workstream"@.len() != "Question"@.len());
            assert("Task"@.len() != "Question"@.len());
            assert("Meeting"@.len() != "Question"@.len());
            assert("Transcript"@.len() != "Question"@.len());
            assert("Note"@.len() != "Question"@.len());
            assert("Reflection"@.len() != "Question"@.len());
            assert("Artifact"@[0] != "Question"@[0]);
            assert("Reference"@.len() != "Question"@.len());
            assert("Decision"@[0] != "Question"@[0]);
            assert("Risk"@.len() != "Question"@.len());
            assert("Blocker"@.len() != "Question"@.len());
        },
        EntityType::Insight => {
            assert("Program"@[0] != "Insight"@[0]);
            assert("Responsibility"@.len() != "Insight"@.len());
            assert("Objective"@.len() != "Insight"@.len());
            assert("Workstream"@.len() != "Insight"@.len());
            assert("Task"@.len() != "Insight"@.len());
            assert("Meeting"@[0] != "Insight"@[0]);
            assert("Transcript"@.len() != "Insight"@.len());
            assert("Note"@.len() != "Insight"@.len());
            assert("Reflection"@.len() != "Insight"@.len());
            assert("Artifact"@.len() != "Insight"@.len());
            assert("Reference"@.len() != "Insight"@.len());
            assert("Decision"@.len() != "Insight"@.len());
            assert("Risk"@.len() != "Insight"@.len());
            assert("Blocker"@[0] != "Insight"@[0]);
            assert("Question"@.len() != "Insight"@.len());
        },
        EntityType::Person => {
            assert("Program"@.len() != "Person"@.len());
            assert("Responsibility"@.len() != "Person"@.len());
            assert("Objective"@.len() != "Person"@.len());
            assert("Workstream"@.len() != "Person"@.len());
            assert("Task"@.len() != "Person"@.len());
            assert("Meeting"@.len() != "Person"@.len());
            assert("Transcript"@.len() != "Person"@.len());
            assert("Note"@.len() != "Person"@.len());
            assert("Reflection"@.len() != "Person"@.len());
            assert("Artifact"@.len() != "Person"@.len());
            assert("Reference"@.len() != "Person"@.len());
            assert("Decision"@.len() != "Person"@.len());
            assert("Risk"@.len() != "Person"@.len());
            assert("Blocker"@.len() != "Person"@.len());
            assert("Question"@.len() != "Person"@.len());
            assert("Insight"@.len() != "Person"@.len());
        },
    }
}

} // verus!
