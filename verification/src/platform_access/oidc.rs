//! Configuration of the external OIDC identity provider (e.g. Keycloak,
//! Auth0, Authentik) that authenticates users.

use vstd::prelude::*;
use crate::support::text::{owned, split_trimmed, split_on, trim, join_strings, join_with, string_views, str_eq, lemma_split_join};

verus! {

/// The default scopes, comma-separated.
pub open spec fn default_scope_text() -> Seq<char> {
    "openid,email,profile"@
}

/// The default scopes, comma-separated.
pub fn default_scopes() -> (r: String)
    ensures
        r@ == default_scope_text(),
{
    owned("openid,email,profile")
}

/// The default claim that holds a user's groups.
pub fn default_groups_claim() -> (r: String)
    ensures
        r@ == "groups"@,
{
    owned("groups")
}

/// The default group that grants user access.
pub fn default_user_group() -> (r: String)
    ensures
        r@ == "platform-users"@,
{
    owned("platform-users")
}

/// The default group that grants admin access.
pub fn default_admin_group() -> (r: String)
    ensures
        r@ == "platform-admins"@,
{
    owned("platform-admins")
}

/// OIDC provider configuration.
#[derive(Debug, Clone)]
pub struct OidcConfig {
    issuer_url: String,
    client_id: String,
    client_secret: String,
    redirect_uri: String,
    scopes: String,
    groups_claim: String,
    user_group: String,
    admin_group: String,
}

/// The scopes of a comma-separated list: its pieces, trimmed.
pub open spec fn scope_list(raw: Seq<char>) -> Seq<Seq<char>> {
    split_on(raw, ',').map_values(|p: Seq<char>| trim(p))
}

impl OidcConfig {
    /// The issuer URL (used for OIDC discovery).
    pub closed spec fn issuer_url_view(&self) -> Seq<char> {
        self.issuer_url@
    }

    /// The OAuth2 client identifier.
    pub closed spec fn client_id_view(&self) -> Seq<char> {
        self.client_id@
    }

    /// The OAuth2 client secret.
    pub closed spec fn client_secret_view(&self) -> Seq<char> {
        self.client_secret@
    }

    /// The OAuth2 redirect URI.
    pub closed spec fn redirect_uri_view(&self) -> Seq<char> {
        self.redirect_uri@
    }

    /// The scopes to request, comma-separated.
    pub closed spec fn scopes_view(&self) -> Seq<char> {
        self.scopes@
    }

    /// The claim of the ID token that holds the user's groups.
    pub closed spec fn groups_claim_view(&self) -> Seq<char> {
        self.groups_claim@
    }

    /// The group that grants user access.
    pub closed spec fn user_group_view(&self) -> Seq<char> {
        self.user_group@
    }

    /// The group that grants admin access.
    pub closed spec fn admin_group_view(&self) -> Seq<char> {
        self.admin_group@
    }

    /// A configuration with the default scopes (`openid,email,profile`),
    /// groups claim (`groups`) and groups (`platform-users`,
    /// `platform-admins`).
    pub fn new(issuer_url: String, client_id: String, client_secret: String, redirect_uri: String) -> (r: Self)
        ensures
            r.issuer_url_view() == issuer_url@,
            r.client_id_view() == client_id@,
            r.client_secret_view() == client_secret@,
            r.redirect_uri_view() == redirect_uri@,
            r.scopes_view() == default_scope_text(),
            r.groups_claim_view() == "groups"@,
            r.user_group_view() == "platform-users"@,
            r.admin_group_view() == "platform-admins"@,
    {
        OidcConfig {
            issuer_url,
            client_id,
            client_secret,
            redirect_uri,
            scopes: default_scopes(),
            groups_claim: default_groups_claim(),
            user_group: default_user_group(),
            admin_group: default_admin_group(),
        }
    }

    /// A builder for a customised configuration.
    pub fn builder(issuer_url: String, client_id: String, client_secret: String, redirect_uri: String) -> (r:
        OidcConfigBuilder)
        ensures
            r.issuer_url_view() == issuer_url@,
            r.client_id_view() == client_id@,
            r.client_secret_view() == client_secret@,
            r.redirect_uri_view() == redirect_uri@,
            r.scopes_view() == seq!["openid"@, "email"@, "profile"@],
            r.groups_claim_view() == "groups"@,
            r.user_group_view() == "platform-users"@,
            r.admin_group_view() == "platform-admins"@,
    {
        OidcConfigBuilder::new(issuer_url, client_id, client_secret, redirect_uri)
    }

    /// The issuer URL.
    pub fn issuer_url(&self) -> (r: &str)
        ensures
            r@ == self.issuer_url_view(),
    {
        self.issuer_url.as_str()
    }

    /// The OAuth2 client identifier.
    pub fn client_id(&self) -> (r: &str)
        ensures
            r@ == self.client_id_view(),
    {
        self.client_id.as_str()
    }

    /// The OAuth2 client secret.
    pub fn client_secret(&self) -> (r: &str)
        ensures
            r@ == self.client_secret_view(),
    {
        self.client_secret.as_str()
    }

    /// The OAuth2 redirect URI.
    pub fn redirect_uri(&self) -> (r: &str)
        ensures
            r@ == self.redirect_uri_view(),
    {
        self.redirect_uri.as_str()
    }

    /// The scopes to request: the comma-separated pieces, trimmed.
    pub fn scopes(&self) -> (r: Vec<&str>)
        ensures
            r@.len() == scope_list(self.scopes_view()).len(),
            forall|k: int| 0 <= k < r@.len() ==> #[trigger] r@[k]@ == scope_list(self.scopes_view())[k],
    {
        split_trimmed(self.scopes.as_str(), ',')
    }

    /// The scopes as configured, comma-separated.
    pub fn scopes_raw(&self) -> (r: &str)
        ensures
            r@ == self.scopes_view(),
    {
        self.scopes.as_str()
    }

    /// The claim that holds the user's groups.
    pub fn groups_claim(&self) -> (r: &str)
        ensures
            r@ == self.groups_claim_view(),
    {
        self.groups_claim.as_str()
    }

    /// The group that grants user access.
    pub fn user_group(&self) -> (r: &str)
        ensures
            r@ == self.user_group_view(),
    {
        self.user_group.as_str()
    }

    /// The group that grants admin access.
    pub fn admin_group(&self) -> (r: &str)
        ensures
            r@ == self.admin_group_view(),
    {
        self.admin_group.as_str()
    }
}

/// Builder of an OIDC configuration.
#[derive(Debug)]
pub struct OidcConfigBuilder {
    issuer_url: String,
    client_id: String,
    client_secret: String,
    redirect_uri: String,
    scopes: Vec<String>,
    groups_claim: String,
    user_group: String,
    admin_group: String,
}

impl OidcConfigBuilder {
    /// The issuer URL.
    pub closed spec fn issuer_url_view(&self) -> Seq<char> {
        self.issuer_url@
    }

    /// The OAuth2 client identifier.
    pub closed spec fn client_id_view(&self) -> Seq<char> {
        self.client_id@
    }

    /// The OAuth2 client secret.
    pub closed spec fn client_secret_view(&self) -> Seq<char> {
        self.client_secret@
    }

    /// The OAuth2 redirect URI.
    pub closed spec fn redirect_uri_view(&self) -> Seq<char> {
        self.redirect_uri@
    }

    /// The scopes to request.
    pub closed spec fn scopes_view(&self) -> Seq<Seq<char>> {
        string_views(self.scopes@)
    }

    /// The claim that holds the user's groups.
    pub closed spec fn groups_claim_view(&self) -> Seq<char> {
        self.groups_claim@
    }

    /// The group that grants user access.
    pub closed spec fn user_group_view(&self) -> Seq<char> {
        self.user_group@
    }

    /// The group that grants admin access.
    pub closed spec fn admin_group_view(&self) -> Seq<char> {
        self.admin_group@
    }

    /// The builder keeps everything but the scopes.
    pub open spec fn same_but_scopes(&self, other: &OidcConfigBuilder) -> bool {
        &&& other.issuer_url_view() == self.issuer_url_view()
        &&& other.client_id_view() == self.client_id_view()
        &&& other.client_secret_view() == self.client_secret_view()
        &&& other.redirect_uri_view() == self.redirect_uri_view()
        &&& other.groups_claim_view() == self.groups_claim_view()
        &&& other.user_group_view() == self.user_group_view()
        &&& other.admin_group_view() == self.admin_group_view()
    }

    /// The builder keeps the connection fields and the scopes.
    pub open spec fn same_connection(&self, other: &OidcConfigBuilder) -> bool {
        &&& other.issuer_url_view() == self.issuer_url_view()
        &&& other.client_id_view() == self.client_id_view()
        &&& other.client_secret_view() == self.client_secret_view()
        &&& other.redirect_uri_view() == self.redirect_uri_view()
        &&& other.scopes_view() == self.scopes_view()
    }

    /// A builder with the required fields and the defaults.
    pub fn new(issuer_url: String, client_id: String, client_secret: String, redirect_uri: String) -> (r: Self)
        ensures
            r.issuer_url_view() == issuer_url@,
            r.client_id_view() == client_id@,
            r.client_secret_view() == client_secret@,
            r.redirect_uri_view() == redirect_uri@,
            r.scopes_view() == seq!["openid"@, "email"@, "profile"@],
            r.groups_claim_view() == "groups"@,
            r.user_group_view() == "platform-users"@,
            r.admin_group_view() == "platform-admins"@,
    {
        let mut scopes: Vec<String> = Vec::new();
        scopes.push(owned("openid"));
        scopes.push(owned("email"));
        scopes.push(owned("profile"));
        let r = OidcConfigBuilder {
            issuer_url,
            client_id,
            client_secret,
            redirect_uri,
            scopes,
            groups_claim: default_groups_claim(),
            user_group: default_user_group(),
            admin_group: default_admin_group(),
        };
        assert(r.scopes_view() =~= seq!["openid"@, "email"@, "profile"@]);
        r
    }

    /// The builder with these scopes.
    pub fn scopes(self, scopes: Vec<String>) -> (r: Self)
        ensures
            r.scopes_view() == string_views(scopes@),
            self.same_but_scopes(&r),
    {
        let mut b = self;
        b.scopes = scopes;
        b
    }

    /// The builder with one more scope, unless it already has it.
    pub fn add_scope(self, scope: String) -> (r: Self)
        ensures
            self.scopes_view().contains(scope@) ==> r.scopes_view() == self.scopes_view(),
            !self.scopes_view().contains(scope@) ==> r.scopes_view() == self.scopes_view().push(scope@),
            self.same_but_scopes(&r),
    {
        let ghost sv = string_views(self.scopes@);
        let mut found = false;
        let mut i: usize = 0;
        while i < self.scopes.len() && !found
            invariant
                i <= self.scopes@.len(),
                sv == string_views(self.scopes@),
                found ==> sv.contains(scope@),
                !found ==> forall|j: int| 0 <= j < i ==> sv[j] != scope@,
            decreases self.scopes@.len() - i,
        {
            if str_eq(self.scopes[i].as_str(), scope.as_str()) {
                assert(sv[i as int] == scope@);
                found = true;
            }
            i = i + 1;
        }
        let mut b = self;
        if !found {
            b.scopes.push(scope);
            assert(string_views(b.scopes@) =~= sv.push(scope@));
        }
        b
    }

    /// The builder with this groups claim.
    pub fn groups_claim(self, claim: String) -> (r: Self)
        ensures
            r.groups_claim_view() == claim@,
            r.user_group_view() == self.user_group_view(),
            r.admin_group_view() == self.admin_group_view(),
            self.same_connection(&r),
    {
        let mut b = self;
        b.groups_claim = claim;
        b
    }

    /// The builder with this user group.
    pub fn user_group(self, group: String) -> (r: Self)
        ensures
            r.user_group_view() == group@,
            r.groups_claim_view() == self.groups_claim_view(),
            r.admin_group_view() == self.admin_group_view(),
            self.same_connection(&r),
    {
        let mut b = self;
        b.user_group = group;
        b
    }

    /// The builder with this admin group.
    pub fn admin_group(self, group: String) -> (r: Self)
        ensures
            r.admin_group_view() == group@,
            r.groups_claim_view() == self.groups_claim_view(),
            r.user_group_view() == self.user_group_view(),
            self.same_connection(&r),
    {
        let mut b = self;
        b.admin_group = group;
        b
    }

    /// The configuration: the scopes joined with commas.
    pub fn build(self) -> (r: OidcConfig)
        ensures
            r.issuer_url_view() == self.issuer_url_view(),
            r.client_id_view() == self.client_id_view(),
            r.client_secret_view() == self.client_secret_view(),
            r.redirect_uri_view() == self.redirect_uri_view(),
            r.scopes_view() == join_with(self.scopes_view(), ","@),
            r.groups_claim_view() == self.groups_claim_view(),
            r.user_group_view() == self.user_group_view(),
            r.admin_group_view() == self.admin_group_view(),
    {
        let scopes = join_strings(&self.scopes, ",");
        OidcConfig {
            issuer_url: self.issuer_url,
            client_id: self.client_id,
            client_secret: self.client_secret,
            redirect_uri: self.redirect_uri,
            scopes,
            groups_claim: self.groups_claim,
            user_group: self.user_group,
            admin_group: self.admin_group,
        }
    }
}

/// The scopes of a configuration built from a list of scopes are that list,
/// when the list is not empty and no scope holds a comma or leading or
/// trailing white space.
pub proof fn law_scopes_roundtrip(parts: Seq<Seq<char>>)
    requires
        parts.len() >= 1,
        forall|k: int| 0 <= k < parts.len() ==> !(#[trigger] parts[k]).contains(','),
        forall|k: int| 0 <= k < parts.len() ==> trim(#[trigger] parts[k]) == parts[k],
    ensures
        scope_list(join_with(parts, ","@)) == parts,
{
    reveal_strlit(",");
    assert(","@ =~= seq![',']);
    lemma_split_join(parts, ',');
    assert(scope_list(join_with(parts, ","@)) =~= parts);
}

} // verus!
