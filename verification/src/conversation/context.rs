//! Facts learned about users, kept as context for conversations: stated by
//! the user, inferred with a confidence, or extracted by a workflow. Facts
//! last until contradicted or deleted.
//!
//! A confidence is a probability held as the bits of its IEEE 754 double
//! (`f64::to_bits`): the library carries it and never computes with it.

use vstd::prelude::*;
use crate::support::text::{owned, concat2};
use crate::support::clock::now_millis;
use crate::support::json::Json;
use crate::support::ulid_text::{fresh_ulid, ulid_to_string, ulid_text};
use crate::platform_core::id::{ConversationSessionId, UserId};

verus! {

/// Identifier of a fact (text prefix `fact`).
#[derive(Debug, Clone, Copy, PartialEq, Eq, Hash, Structural)]
pub struct FactId(pub u128);

impl FactId {
    /// A fresh identifier.
    pub fn new() -> Self {
        FactId(fresh_ulid())
    }

    /// The text form `fact_ULID`.
    pub fn to_string(&self) -> (s: String)
        ensures
            s@ == "fact_"@ + ulid_text(self.0),
    {
        concat2("fact_", ulid_to_string(self.0).as_str())
    }
}

impl Default for FactId {
    /// A fresh identifier.
    fn default() -> Self {
        FactId::new()
    }
}

/// Where a fact comes from.
#[derive(Debug, Clone, Copy, PartialEq, Eq, Structural)]
pub enum FactSource {
    /// The user stated it.
    Explicit,
    /// Inferred from behaviour or conversation.
    Inferred,
    /// Extracted by a workflow.
    WorkflowExtracted,
}

/// A fact about a user.
#[derive(Debug)]
pub struct ContextFact {
    /// Identifier.
    pub id: FactId,
    /// The user.
    pub user_id: UserId,
    /// Category (e.g. `preference`, `identity`).
    pub category: String,
    /// Key within the category.
    pub key: String,
    /// Value.
    pub value: Json,
    /// Where it comes from.
    pub source: FactSource,
    /// The session it was learned in, if any.
    pub source_session_id: Option<ConversationSessionId>,
    /// When it was created (milliseconds since the epoch).
    pub created_at: i64,
    /// When it was last updated.
    pub updated_at: i64,
    /// Whether it is always given as context.
    pub is_core: bool,
    /// Confidence of an inferred fact, as the bits of an `f64`.
    pub confidence_bits: Option<u64>,
}

impl ContextFact {
    /// A fact the user stated: core, without confidence.
    pub fn explicit(user_id: UserId, category: &str, key: &str, value: Json) -> (r: Self)
        ensures
            r.user_id == user_id,
            r.category@ == category@,
            r.key@ == key@,
            r.value == value,
            r.source == FactSource::Explicit,
            r.source_session_id is None,
            r.created_at == r.updated_at,
            r.is_core,
            r.confidence_bits is None,
    {
        let now = now_millis();
        ContextFact {
            id: FactId::new(),
            user_id,
            category: owned(category),
            key: owned(key),
            value,
            source: FactSource::Explicit,
            source_session_id: None,
            created_at: now,
            updated_at: now,
            is_core: true,
            confidence_bits: None,
        }
    }

    /// An inferred fact with a confidence: not core.
    pub fn inferred(user_id: UserId, category: &str, key: &str, value: Json, confidence_bits: u64) -> (r: Self)
        ensures
            r.user_id == user_id,
            r.category@ == category@,
            r.key@ == key@,
            r.value == value,
            r.source == FactSource::Inferred,
            r.source_session_id is None,
            r.created_at == r.updated_at,
            !r.is_core,
            r.confidence_bits == Some(confidence_bits),
    {
        let now = now_millis();
        ContextFact {
            id: FactId::new(),
            user_id,
            category: owned(category),
            key: owned(key),
            value,
            source: FactSource::Inferred,
            source_session_id: None,
            created_at: now,
            updated_at: now,
            is_core: false,
            confidence_bits: Some(confidence_bits),
        }
    }

    /// The fact, learned in the given session.
    pub fn with_source_session(self, session_id: ConversationSessionId) -> (r: Self)
        ensures
            r == (ContextFact { source_session_id: Some(session_id), ..self }),
    {
        ContextFact { source_session_id: Some(session_id), ..self }
    }

    /// The fact, made core.
    pub fn as_core(self) -> (r: Self)
        ensures
            r == (ContextFact { is_core: true, ..self }),
    {
        ContextFact { is_core: true, ..self }
    }

    /// Replaces the value and marks the fact updated now.
    pub fn update_value(&mut self, value: Json)
        ensures
            *final(self) == (ContextFact { value: value, updated_at: final(self).updated_at, ..*old(self) }),
    {
        self.value = value;
        self.updated_at = now_millis();
    }
}

/// A query of facts.
#[derive(Debug, Clone)]
pub struct FactQuery {
    /// Only this user's facts.
    pub user_id: Option<UserId>,
    /// Only this category.
    pub category: Option<String>,
    /// Only keys matching this pattern.
    pub key_pattern: Option<String>,
    /// Only core facts.
    pub core_only: bool,
    /// Only facts the user stated.
    pub explicit_only: bool,
    /// Only facts with at least this confidence (bits of an `f64`).
    pub min_confidence_bits: Option<u64>,
}

impl Default for FactQuery {
    /// A query of every fact.
    fn default() -> (r: Self)
        ensures
            r.user_id is None,
            r.category is None,
            r.key_pattern is None,
            !r.core_only,
            !r.explicit_only,
            r.min_confidence_bits is None,
    {
        FactQuery {
            user_id: None,
            category: None,
            key_pattern: None,
            core_only: false,
            explicit_only: false,
            min_confidence_bits: None,
        }
    }
}

impl FactQuery {
    /// A query of one user's facts.
    pub fn for_user(user_id: UserId) -> (r: Self)
        ensures
            r.user_id == Some(user_id),
            r.category is None,
            r.key_pattern is None,
            !r.core_only,
            !r.explicit_only,
            r.min_confidence_bits is None,
    {
        FactQuery { user_id: Some(user_id), ..FactQuery::default() }
    }

    /// The query, limited to a category.
    pub fn with_category(self, category: &str) -> (r: Self)
        ensures
            r.category matches Some(c) && c@ == category@,
            r.user_id == self.user_id,
            r.key_pattern == self.key_pattern,
            r.core_only == self.core_only,
            r.explicit_only == self.explicit_only,
            r.min_confidence_bits == self.min_confidence_bits,
    {
        FactQuery { category: Some(owned(category)), ..self }
    }

    /// The query, limited to core facts.
    pub fn core_only(self) -> (r: Self)
        ensures
            r == (FactQuery { core_only: true, ..self }),
    {
        FactQuery { core_only: true, ..self }
    }
}

} // verus!
