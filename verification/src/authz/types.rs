//! Resources, subjects, relationships and permissions of the authorization
//! schema.

use vstd::prelude::*;
use crate::support::text::owned;
use crate::platform_core::id::{IntegrationAccountId, UserId, WorkflowId, id_text};

verus! {

/// The kinds of resource in the authorization schema.
#[derive(Debug, Clone, Copy, PartialEq, Eq, Structural)]
pub enum ResourceType {
    /// A workflow.
    Workflow,
    /// An integration account.
    Integration,
    /// The platform itself (one instance).
    Platform,
}

/// The schema name of a resource kind.
pub open spec fn resource_type_text(t: ResourceType) -> Seq<char> {
    match t {
        ResourceType::Workflow => "workflow"@,
        ResourceType::Integration => "integration"@,
        ResourceType::Platform => "platform"@,
    }
}

impl ResourceType {
    /// The schema name of this kind (also its display form).
    pub fn as_str(&self) -> (r: &'static str)
        ensures
            r@ == resource_type_text(*self),
    {
        match self {
            ResourceType::Workflow => "workflow",
            ResourceType::Integration => "integration",
            ResourceType::Platform => "platform",
        }
    }
}

/// A resource to check permissions on.
#[derive(Debug, Clone, PartialEq, Eq)]
pub struct Resource {
    /// Its kind.
    pub resource_type: ResourceType,
    /// Its identifier.
    pub id: String,
}

impl Resource {
    /// A resource of the given kind and identifier.
    pub fn new(resource_type: ResourceType, id: &str) -> (r: Self)
        ensures
            r.resource_type == resource_type,
            r.id@ == id@,
    {
        Resource { resource_type, id: owned(id) }
    }

    /// A workflow, by its identifier's text.
    pub fn workflow(id: WorkflowId) -> (r: Self)
        ensures
            r.resource_type == ResourceType::Workflow,
            r.id@ == id_text("wf"@, id.0),
    {
        Resource { resource_type: ResourceType::Workflow, id: id.to_string() }
    }

    /// An integration account, by its identifier's text.
    pub fn integration(id: IntegrationAccountId) -> (r: Self)
        ensures
            r.resource_type == ResourceType::Integration,
            r.id@ == id_text("int"@, id.0),
    {
        Resource { resource_type: ResourceType::Integration, id: id.to_string() }
    }

    /// The platform (`platform:main`).
    pub fn platform() -> (r: Self)
        ensures
            r.resource_type == ResourceType::Platform,
            r.id@ == "main"@,
    {
        Resource::new(ResourceType::Platform, "main")
    }
}

/// A subject that holds permissions.
#[derive(Debug, Clone, PartialEq, Eq)]
pub struct Subject {
    /// Its kind.
    pub subject_type: String,
    /// Its identifier.
    pub id: String,
}

impl Subject {
    /// A user, by its identifier's text.
    pub fn user(id: UserId) -> (r: Self)
        ensures
            r.subject_type@ == "user"@,
            r.id@ == id_text("usr"@, id.0),
    {
        Subject { subject_type: owned("user"), id: id.to_string() }
    }
}

/// A relationship between a resource and a subject.
#[derive(Debug, Clone, PartialEq, Eq)]
pub struct Relationship {
    /// The resource.
    pub resource: Resource,
    /// The relation (e.g. `owner`, `admin`, `member`).
    pub relation: String,
    /// The subject.
    pub subject: Subject,
}

impl Relationship {
    /// A relationship with the given relation.
    pub fn new(resource: Resource, relation: &str, subject: Subject) -> (r: Self)
        ensures
            r.resource == resource,
            r.relation@ == relation@,
            r.subject == subject,
    {
        Relationship { resource, relation: owned(relation), subject }
    }

    /// The user owns the workflow.
    pub fn workflow_owner(workflow_id: WorkflowId, user_id: UserId) -> (r: Self)
        ensures
            r.resource.resource_type == ResourceType::Workflow,
            r.resource.id@ == id_text("wf"@, workflow_id.0),
            r.relation@ == "owner"@,
            r.subject.subject_type@ == "user"@,
            r.subject.id@ == id_text("usr"@, user_id.0),
    {
        Relationship::new(Resource::workflow(workflow_id), "owner", Subject::user(user_id))
    }

    /// The user owns the integration account.
    pub fn integration_owner(integration_id: IntegrationAccountId, user_id: UserId) -> (r: Self)
        ensures
            r.resource.resource_type == ResourceType::Integration,
            r.resource.id@ == id_text("int"@, integration_id.0),
            r.relation@ == "owner"@,
            r.subject.subject_type@ == "user"@,
            r.subject.id@ == id_text("usr"@, user_id.0),
    {
        Relationship::new(Resource::integration(integration_id), "owner", Subject::user(user_id))
    }

    /// The user administers the platform.
    pub fn platform_admin(user_id: UserId) -> (r: Self)
        ensures
            r.resource.resource_type == ResourceType::Platform,
            r.resource.id@ == "main"@,
            r.relation@ == "admin"@,
            r.subject.subject_type@ == "user"@,
            r.subject.id@ == id_text("usr"@, user_id.0),
    {
        Relationship::new(Resource::platform(), "admin", Subject::user(user_id))
    }

    /// The user is a member of the platform.
    pub fn platform_member(user_id: UserId) -> (r: Self)
        ensures
            r.resource.resource_type == ResourceType::Platform,
            r.resource.id@ == "main"@,
            r.relation@ == "member"@,
            r.subject.subject_type@ == "user"@,
            r.subject.id@ == id_text("usr"@, user_id.0),
    {
        Relationship::new(Resource::platform(), "member", Subject::user(user_id))
    }
}

/// The permissions of the authorization schema.
#[derive(Debug, Clone, Copy, PartialEq, Eq, Structural)]
pub enum Permission {
    View,
    Edit,
    Delete,
    Execute,
    Use,
    Administer,
    Access,
}

/// The schema name of a permission.
pub open spec fn permission_text(p: Permission) -> Seq<char> {
    match p {
        Permission::View => "view"@,
        Permission::Edit => "edit"@,
        Permission::Delete => "delete"@,
        Permission::Execute => "execute"@,
        Permission::Use => "use"@,
        Permission::Administer => "administer"@,
        Permission::Access => "access"@,
    }
}

impl Permission {
    /// The schema name of this permission (also its display form).
    pub fn as_str(&self) -> (r: &'static str)
        ensures
            r@ == permission_text(*self),
    {
        match self {
            Permission::View => "view",
            Permission::Edit => "edit",
            Permission::Delete => "delete",
            Permission::Execute => "execute",
            Permission::Use => "use",
            Permission::Administer => "administer",
            Permission::Access => "access",
        }
    }
}

} // verus!
