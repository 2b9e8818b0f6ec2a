//! The requests that the authorization client sends, as plain values, and
//! the reading of the service's answer to a permission check.
//!
//! Every object is named by its schema type and identifier; checks and
//! lookups ask for full consistency; relationships are written as "touch"
//! updates (created, or kept when already present).

use vstd::prelude::*;
use crate::authz::types::{Permission, Relationship, Resource, ResourceType, Subject, permission_text, resource_type_text};
use crate::support::text::owned;
use crate::authz::error::AuthzError;

verus! {

/// A reference to an object of the schema.
#[derive(Debug, Clone, PartialEq, Eq)]
pub struct ObjectRef {
    pub object_type: String,
    pub object_id: String,
}

/// Whether `r` names the resource `res`.
pub open spec fn names_resource(r: ObjectRef, res: Resource) -> bool {
    r.object_type@ == resource_type_text(res.resource_type) && r.object_id@ == res.id@
}

/// Whether `r` names the subject `s`.
pub open spec fn names_subject(r: ObjectRef, s: Subject) -> bool {
    r.object_type@ == s.subject_type@ && r.object_id@ == s.id@
}

/// The reference to a resource.
pub fn resource_ref(resource: &Resource) -> (r: ObjectRef)
    ensures
        names_resource(r, *resource),
{
    ObjectRef { object_type: owned(resource.resource_type.as_str()), object_id: owned(resource.id.as_str()) }
}

/// The reference to a subject (the subject itself, no relation of it).
pub fn subject_ref(subject: &Subject) -> (r: ObjectRef)
    ensures
        names_subject(r, *subject),
{
    ObjectRef { object_type: owned(subject.subject_type.as_str()), object_id: owned(subject.id.as_str()) }
}

/// A permission check: does `subject` have `permission` on `resource`?
#[derive(Debug, Clone, PartialEq, Eq)]
pub struct CheckRequest {
    pub resource: ObjectRef,
    pub permission: String,
    pub subject: ObjectRef,
    pub fully_consistent: bool,
}

/// The check of `permission` on `resource` for `subject`, fully consistent.
pub fn check_request(resource: &Resource, permission: Permission, subject: &Subject) -> (r: CheckRequest)
    ensures
        names_resource(r.resource, *resource),
        r.permission@ == permission_text(permission),
        names_subject(r.subject, *subject),
        r.fully_consistent,
{
    CheckRequest {
        resource: resource_ref(resource),
        permission: owned(permission.as_str()),
        subject: subject_ref(subject),
        fully_consistent: true,
    }
}

/// A relationship update that creates the relationship or keeps it.
#[derive(Debug, Clone, PartialEq, Eq)]
pub struct TouchUpdate {
    pub resource: ObjectRef,
    pub relation: String,
    pub subject: ObjectRef,
}

/// The touch update writing `relationship`.
pub fn touch_update(relationship: &Relationship) -> (r: TouchUpdate)
    ensures
        names_resource(r.resource, relationship.resource),
        r.relation@ == relationship.relation@,
        names_subject(r.subject, relationship.subject),
{
    TouchUpdate {
        resource: resource_ref(&relationship.resource),
        relation: owned(relationship.relation.as_str()),
        subject: subject_ref(&relationship.subject),
    }
}

/// A filter selecting relationships to delete. An empty relation selects
/// every relation of the resource.
#[derive(Debug, Clone, PartialEq, Eq)]
pub struct DeleteFilter {
    pub resource_type: String,
    pub resource_id: String,
    pub relation: String,
}

/// The filter selecting the relationships of `resource`, of one relation
/// when one is given, else of all.
pub fn delete_filter(resource: &Resource, relation: Option<&str>) -> (r: DeleteFilter)
    ensures
        r.resource_type@ == resource_type_text(resource.resource_type),
        r.resource_id@ == resource.id@,
        r.relation@ == match relation {
            Some(rel) => rel@,
            None => Seq::<char>::empty(),
        },
{
    let rel = match relation {
        Some(rel) => owned(rel),
        None => String::new(),
    };
    DeleteFilter {
        resource_type: owned(resource.resource_type.as_str()),
        resource_id: owned(resource.id.as_str()),
        relation: rel,
    }
}

/// A lookup of the resources of one kind on which `subject` has a permission.
#[derive(Debug, Clone, PartialEq, Eq)]
pub struct LookupRequest {
    pub resource_type: String,
    pub permission: String,
    pub subject: ObjectRef,
    pub fully_consistent: bool,
}

/// The lookup of resources of `resource_type` on which `subject` has
/// `permission`, fully consistent.
pub fn lookup_request(resource_type: ResourceType, permission: Permission, subject: &Subject) -> (r: LookupRequest)
    ensures
        r.resource_type@ == resource_type_text(resource_type),
        r.permission@ == permission_text(permission),
        names_subject(r.subject, *subject),
        r.fully_consistent,
{
    LookupRequest {
        resource_type: owned(resource_type.as_str()),
        permission: owned(permission.as_str()),
        subject: subject_ref(subject),
        fully_consistent: true,
    }
}

/// The service's answer to a permission check.
#[derive(Debug, Clone, Copy, PartialEq, Eq, Structural)]
pub enum Permissionship {
    Unspecified,
    NoPermission,
    HasPermission,
    ConditionalPermission,
}

/// Whether an answer grants the permission: only a definite "has permission"
/// does; a conditional answer does not.
pub fn is_granted(answer: Permissionship) -> (r: bool)
    ensures
        r <==> answer == Permissionship::HasPermission,
{
    match answer {
        Permissionship::HasPermission => true,
        _ => false,
    }
}

/// Takes one reply of a streamed resource lookup: a resource identifier is
/// added after those already collected; a failed reply ends the lookup with
/// a failed request carrying its details, and nothing is added.
pub fn take_lookup_reply(ids: &mut Vec<String>, reply: Result<String, String>) -> (r: Option<AuthzError>)
    ensures
        reply matches Ok(id) ==> final(ids)@ == old(ids)@.push(id) && r is None,
        reply matches Err(details) ==> final(ids)@ == old(ids)@ && r == Some(AuthzError::RequestFailed { details }),
{
    match reply {
        Ok(id) => {
            ids.push(id);
            None
        },
        Err(details) => Some(AuthzError::RequestFailed { details }),
    }
}

} // verus!
