//! Errors of authorization, and the decision taken on a permission check.

use vstd::prelude::*;
use crate::support::text::{concat2, concat3, concat4, owned};
use crate::authz::types::{Permission, Resource, permission_text, resource_type_text};

verus! {

/// Authorization errors.
#[derive(Debug)]
pub enum AuthzError {
    /// The subject lacks the permission on the resource.
    PermissionDenied { resource: String, permission: String },
    /// The authorization service could not be reached.
    ConnectionFailed { details: String },
    /// A request to the service failed.
    RequestFailed { details: String },
    /// The input is not valid.
    InvalidInput { details: String },
}

/// The message of an authorization error.
pub open spec fn authz_error_text(e: AuthzError) -> Seq<char> {
    match e {
        AuthzError::PermissionDenied { resource, permission } => "permission '"@ + permission@ + "' denied on resource '"@
            + resource@ + "'"@,
        AuthzError::ConnectionFailed { details } => "failed to connect to authorization service: "@ + details@,
        AuthzError::RequestFailed { details } => "authorization request failed: "@ + details@,
        AuthzError::InvalidInput { details } => "invalid authorization input: "@ + details@,
    }
}

impl AuthzError {
    /// The message of this error.
    pub fn to_string(&self) -> (s: String)
        ensures
            s@ == authz_error_text(*self),
    {
        match self {
            AuthzError::PermissionDenied { resource, permission } => {
                let head = concat3("permission '", permission.as_str(), "' denied on resource '");
                concat3(head.as_str(), resource.as_str(), "'")
            },
            AuthzError::ConnectionFailed { details } => concat2(
                "failed to connect to authorization service: ",
                details.as_str(),
            ),
            AuthzError::RequestFailed { details } => concat2("authorization request failed: ", details.as_str()),
            AuthzError::InvalidInput { details } => concat2("invalid authorization input: ", details.as_str()),
        }
    }
}

/// What requiring a permission gives, once the service has answered whether
/// the subject has it: nothing, or a denial that names the resource as
/// `type:id` and the permission.
pub fn permission_outcome(allowed: bool, resource: &Resource, permission: Permission) -> (r: Result<(), AuthzError>)
    ensures
        allowed ==> r is Ok,
        !allowed ==> (r matches Err(AuthzError::PermissionDenied { resource: res, permission: perm }) && res@
            == resource_type_text(resource.resource_type) + ":"@ + resource.id@ && perm@ == permission_text(
            permission,
        )),
{
    if !allowed {
        return Err(
            AuthzError::PermissionDenied {
                resource: concat3(resource.resource_type.as_str(), ":", resource.id.as_str()),
                permission: owned(permission.as_str()),
            },
        );
    }
    Ok(())
}

} // verus!
