//! Users of the platform: identified by the OIDC subject and issuer, with an
//! internal identifier and profile fields.

use vstd::prelude::*;
use crate::support::clock::now_millis;
use crate::platform_core::id::UserId;
use crate::platform_access::session::opt_text;

verus! {

/// An authenticated user of the platform.
#[derive(Debug, Clone, PartialEq, Eq)]
pub struct User {
    id: UserId,
    subject: String,
    issuer: String,
    email: Option<String>,
    display_name: Option<String>,
    timezone: Option<String>,
    created_at: i64,
    updated_at: i64,
}

impl User {
    /// The internal identifier.
    pub closed spec fn id_view(&self) -> UserId {
        self.id
    }

    /// The OIDC subject.
    pub closed spec fn subject_view(&self) -> Seq<char> {
        self.subject@
    }

    /// The OIDC issuer.
    pub closed spec fn issuer_view(&self) -> Seq<char> {
        self.issuer@
    }

    /// The email address, if any.
    pub closed spec fn email_view(&self) -> Option<Seq<char>> {
        opt_text(self.email)
    }

    /// The display name, if any.
    pub closed spec fn display_name_view(&self) -> Option<Seq<char>> {
        opt_text(self.display_name)
    }

    /// The time zone, if any.
    pub closed spec fn timezone_view(&self) -> Option<Seq<char>> {
        opt_text(self.timezone)
    }

    /// When the user was created (milliseconds since the epoch).
    pub closed spec fn created_view(&self) -> i64 {
        self.created_at
    }

    /// When the user was last updated (milliseconds since the epoch).
    pub closed spec fn updated_view(&self) -> i64 {
        self.updated_at
    }

    /// A new user with a fresh identifier, created now, without profile fields.
    pub fn new(subject: String, issuer: String) -> (r: Self)
        ensures
            r.subject_view() == subject@,
            r.issuer_view() == issuer@,
            r.email_view() is None,
            r.display_name_view() is None,
            r.timezone_view() is None,
            r.created_view() == r.updated_view(),
    {
        let now = now_millis();
        User {
            id: UserId::new(),
            subject,
            issuer,
            email: None,
            display_name: None,
            timezone: None,
            created_at: now,
            updated_at: now,
        }
    }

    /// A user with every field given.
    pub fn with_all_fields(
        id: UserId,
        subject: String,
        issuer: String,
        email: Option<String>,
        display_name: Option<String>,
        timezone: Option<String>,
        created_at: i64,
        updated_at: i64,
    ) -> (r: Self)
        ensures
            r.id_view() == id,
            r.subject_view() == subject@,
            r.issuer_view() == issuer@,
            r.email_view() == opt_text(email),
            r.display_name_view() == opt_text(display_name),
            r.timezone_view() == opt_text(timezone),
            r.created_view() == created_at,
            r.updated_view() == updated_at,
    {
        User { id, subject, issuer, email, display_name, timezone, created_at, updated_at }
    }

    /// The internal identifier.
    pub fn id(&self) -> (r: UserId)
        ensures
            r == self.id_view(),
    {
        self.id
    }

    /// The OIDC subject.
    pub fn subject(&self) -> (r: &str)
        ensures
            r@ == self.subject_view(),
    {
        self.subject.as_str()
    }

    /// The OIDC issuer.
    pub fn issuer(&self) -> (r: &str)
        ensures
            r@ == self.issuer_view(),
    {
        self.issuer.as_str()
    }

    /// The email address, if any.
    pub fn email(&self) -> (r: Option<&str>)
        ensures
            r is Some <==> self.email_view() is Some,
            r matches Some(t) ==> t@ == self.email_view()->Some_0,
    {
        match &self.email {
            Some(t) => Some(t.as_str()),
            None => None,
        }
    }

    /// The display name, if any.
    pub fn display_name(&self) -> (r: Option<&str>)
        ensures
            r is Some <==> self.display_name_view() is Some,
            r matches Some(t) ==> t@ == self.display_name_view()->Some_0,
    {
        match &self.display_name {
            Some(t) => Some(t.as_str()),
            None => None,
        }
    }

    /// The time zone, if any.
    pub fn timezone(&self) -> (r: Option<&str>)
        ensures
            r is Some <==> self.timezone_view() is Some,
            r matches Some(t) ==> t@ == self.timezone_view()->Some_0,
    {
        match &self.timezone {
            Some(t) => Some(t.as_str()),
            None => None,
        }
    }

    /// When the user was created.
    pub fn created_at(&self) -> (r: i64)
        ensures
            r == self.created_view(),
    {
        self.created_at
    }

    /// When the user was last updated.
    pub fn updated_at(&self) -> (r: i64)
        ensures
            r == self.updated_view(),
    {
        self.updated_at
    }

    /// The profile fields other than the email stay as they were.
    pub open spec fn same_identity(&self, other: &User) -> bool {
        &&& other.id_view() == self.id_view()
        &&& other.subject_view() == self.subject_view()
        &&& other.issuer_view() == self.issuer_view()
        &&& other.created_view() == self.created_view()
    }

    /// Sets the email address and marks the user updated now.
    pub fn set_email(&mut self, email: Option<String>)
        ensures
            old(self).same_identity(&*final(self)),
            final(self).email_view() == opt_text(email),
            final(self).display_name_view() == old(self).display_name_view(),
            final(self).timezone_view() == old(self).timezone_view(),
    {
        self.email = email;
        self.updated_at = now_millis();
    }

    /// Sets the display name and marks the user updated now.
    pub fn set_display_name(&mut self, display_name: Option<String>)
        ensures
            old(self).same_identity(&*final(self)),
            final(self).display_name_view() == opt_text(display_name),
            final(self).email_view() == old(self).email_view(),
            final(self).timezone_view() == old(self).timezone_view(),
    {
        self.display_name = display_name;
        self.updated_at = now_millis();
    }

    /// Sets the time zone and marks the user updated now.
    pub fn set_timezone(&mut self, timezone: Option<String>)
        ensures
            old(self).same_identity(&*final(self)),
            final(self).timezone_view() == opt_text(timezone),
            final(self).email_view() == old(self).email_view(),
            final(self).display_name_view() == old(self).display_name_view(),
    {
        self.timezone = timezone;
        self.updated_at = now_millis();
    }
}

} // verus!
