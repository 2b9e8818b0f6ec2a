//! Strongly-typed identifiers for domain entities.
//!
//! Every identifier wraps a ULID (a 128-bit value that is unique and sorts by
//! creation time). Its text form is a type-specific prefix, an underscore and
//! the 26-character ULID text; parsing accepts that form or the bare ULID.

use vstd::prelude::*;
use vstd::string::*;
use crate::support::text::{chars_of, has_prefix, starts_with_chars};
use crate::support::ulid_text::{fresh_ulid, ulid_decode, ulid_from_str, ulid_text, ulid_to_string};

verus! {

/// Error returned when parsing an identifier from text fails.
#[derive(Debug, Clone)]
pub struct ParseIdError {
    /// The type of identifier that failed to parse.
    pub id_type: &'static str,
    /// The reason for the failure.
    pub reason: String,
}

impl ParseIdError {
    /// The error's message: `failed to parse <type>: <reason>`.
    pub fn to_string(&self) -> (s: String)
        ensures
            s@ == "failed to parse "@ + self.id_type@ + ": "@ + self.reason@,
    {
        String::from_str("failed to parse ").concat(self.id_type).concat(": ").concat(self.reason.as_str())
    }
}

/// The text form of an identifier: prefix, underscore, ULID text.
pub open spec fn id_text(prefix: Seq<char>, value: u128) -> Seq<char> {
    prefix + seq!['_'] + ulid_text(value)
}

/// The ULID part of an identifier's text: the text after `prefix_`, or the
/// whole text when it does not start with `prefix_`.
pub open spec fn strip_id_prefix(text: Seq<char>, prefix: Seq<char>) -> Seq<char> {
    let p = prefix.push('_');
    if has_prefix(text, p) {
        text.subrange(p.len() as int, text.len() as int)
    } else {
        text
    }
}

/// What parsing an identifier's text gives: the decoded ULID, or the decode error.
pub open spec fn parse_id_text(text: Seq<char>, prefix: Seq<char>) -> Result<u128, Seq<char>> {
    ulid_decode(strip_id_prefix(text, prefix))
}

/// Text with the type's prefix and an underscore in front of a ULID text
/// parses as that ULID text alone would: the prefix is taken off.
pub proof fn law_prefix_stripped(prefix: Seq<char>, u: Seq<char>)
    ensures
        parse_id_text(prefix.push('_') + u, prefix) == ulid_decode(u),
{
    let p = prefix.push('_');
    let t = p + u;
    assert(t.subrange(0, p.len() as int) =~= p);
    assert(t.subrange(p.len() as int, t.len() as int) =~= u);
}

/// The text of an identifier is its prefix, an underscore and the ULID text,
/// so it parses exactly as its ULID text does.
pub proof fn law_id_text_parses_as_ulid(prefix: Seq<char>, value: u128)
    ensures
        parse_id_text(id_text(prefix, value), prefix) == ulid_decode(ulid_text(value)),
{
    assert(id_text(prefix, value) =~= prefix.push('_') + ulid_text(value));
    law_prefix_stripped(prefix, ulid_text(value));
}

/// Formats an identifier as `prefix_ULID`. Parsing the text back gives the value.
pub fn format_id(prefix: &str, value: u128) -> (s: String)
    ensures
        s@ == id_text(prefix@, value),
        parse_id_text(s@, prefix@) is Ok,
        parse_id_text(s@, prefix@)->Ok_0 == value,
{
    let u = ulid_to_string(value);
    let s = String::from_str(prefix).concat("_").concat(u.as_str());
    proof {
        reveal_strlit("_");
        let p = prefix@.push('_');
        assert(s@ =~= p + ulid_text(value));
        assert(s@.subrange(0, p.len() as int) =~= p);
        assert(s@.subrange(p.len() as int, s@.len() as int) =~= ulid_text(value));
    }
    s
}

/// Parses identifier text (`prefix_ULID` or a bare ULID).
pub fn parse_id(text: &str, prefix: &str, id_type: &'static str) -> (r: Result<u128, ParseIdError>)
    ensures
        r is Ok <==> parse_id_text(text@, prefix@) is Ok,
        r matches Ok(v) ==> v == parse_id_text(text@, prefix@)->Ok_0,
        r matches Err(e) ==> e.id_type == id_type && e.reason@ == parse_id_text(text@, prefix@)->Err_0,
{
    let t = chars_of(text);
    let mut p = chars_of(prefix);
    p.push('_');
    proof {
        assert(p@ =~= prefix@.push('_'));
    }
    let decoded = if starts_with_chars(&t, &p) {
        let rest = text.substring_char(p.len(), t.len());
        ulid_from_str(rest)
    } else {
        ulid_from_str(text)
    };
    match decoded {
        Ok(v) => Ok(v),
        Err(reason) => Err(ParseIdError { id_type, reason }),
    }
}

/// Unique identifier for a user (text prefix `usr`).
#[derive(Debug, Clone, Copy, PartialEq, Eq, Hash, Structural)]
pub struct UserId(pub u128);

impl UserId {
    /// A new identifier with a freshly generated ULID.
    pub fn new() -> Self {
        UserId(fresh_ulid())
    }

    /// The identifier with the given ULID value.
    pub fn from_ulid(ulid: u128) -> (r: Self)
        ensures
            r.0 == ulid,
    {
        UserId(ulid)
    }

    /// The underlying ULID value.
    pub fn as_ulid(&self) -> (r: u128)
        ensures
            r == self.0,
    {
        self.0
    }

    /// The prefix of the text form.
    pub fn prefix() -> (r: &'static str)
        ensures
            r@ == "usr"@,
    {
        "usr"
    }

    /// The text form `usr_ULID`; parsing it gives this identifier back.
    pub fn to_string(&self) -> (s: String)
        ensures
            s@ == id_text("usr"@, self.0),
            UserId::parsed(s@) == Some(*self),
    {
        format_id("usr", self.0)
    }

    /// What parsing `text` gives, if it succeeds.
    pub open spec fn parsed(text: Seq<char>) -> Option<Self> {
        match parse_id_text(text, "usr"@) {
            Ok(v) => Some(UserId(v)),
            Err(_) => None,
        }
    }

    /// Parses `usr_ULID` or a bare ULID.
    pub fn parse_str(text: &str) -> (r: Result<Self, ParseIdError>)
        ensures
            r is Ok <==> UserId::parsed(text@) is Some,
            r matches Ok(id) ==> UserId::parsed(text@) == Some(id),
            r matches Err(e) ==> e.id_type@ == "UserId"@ && e.reason@ == parse_id_text(text@, "usr"@)->Err_0,
    {
        match parse_id(text, "usr", "UserId") {
            Ok(v) => Ok(UserId(v)),
            Err(e) => Err(e),
        }
    }
}

/// Unique identifier for a workflow definition (text prefix `wf`).
#[derive(Debug, Clone, Copy, PartialEq, Eq, Hash, Structural)]
pub struct WorkflowId(pub u128);

impl WorkflowId {
    /// A new identifier with a freshly generated ULID.
    pub fn new() -> Self {
        WorkflowId(fresh_ulid())
    }

    /// The identifier with the given ULID value.
    pub fn from_ulid(ulid: u128) -> (r: Self)
        ensures
            r.0 == ulid,
    {
        WorkflowId(ulid)
    }

    /// The underlying ULID value.
    pub fn as_ulid(&self) -> (r: u128)
        ensures
            r == self.0,
    {
        self.0
    }

    /// The prefix of the text form.
    pub fn prefix() -> (r: &'static str)
        ensures
            r@ == "wf"@,
    {
        "wf"
    }

    /// The text form `wf_ULID`; parsing it gives this identifier back.
    pub fn to_string(&self) -> (s: String)
        ensures
            s@ == id_text("wf"@, self.0),
            WorkflowId::parsed(s@) == Some(*self),
    {
        format_id("wf", self.0)
    }

    /// What parsing `text` gives, if it succeeds.
    pub open spec fn parsed(text: Seq<char>) -> Option<Self> {
        match parse_id_text(text, "wf"@) {
            Ok(v) => Some(WorkflowId(v)),
            Err(_) => None,
        }
    }

    /// Parses `wf_ULID` or a bare ULID.
    pub fn parse_str(text: &str) -> (r: Result<Self, ParseIdError>)
        ensures
            r is Ok <==> WorkflowId::parsed(text@) is Some,
            r matches Ok(id) ==> WorkflowId::parsed(text@) == Some(id),
            r matches Err(e) ==> e.id_type@ == "WorkflowId"@ && e.reason@ == parse_id_text(text@, "wf"@)->Err_0,
    {
        match parse_id(text, "wf", "WorkflowId") {
            Ok(v) => Ok(WorkflowId(v)),
            Err(e) => Err(e),
        }
    }
}

/// Unique identifier for a single execution (run) of a workflow (text prefix `run`).
#[derive(Debug, Clone, Copy, PartialEq, Eq, Hash, Structural)]
pub struct WorkflowRunId(pub u128);

impl WorkflowRunId {
    /// A new identifier with a freshly generated ULID.
    pub fn new() -> Self {
        WorkflowRunId(fresh_ulid())
    }

    /// The identifier with the given ULID value.
    pub fn from_ulid(ulid: u128) -> (r: Self)
        ensures
            r.0 == ulid,
    {
        WorkflowRunId(ulid)
    }

    /// The underlying ULID value.
    pub fn as_ulid(&self) -> (r: u128)
        ensures
            r == self.0,
    {
        self.0
    }

    /// The prefix of the text form.
    pub fn prefix() -> (r: &'static str)
        ensures
            r@ == "run"@,
    {
        "run"
    }

    /// The text form `run_ULID`; parsing it gives this identifier back.
    pub fn to_string(&self) -> (s: String)
        ensures
            s@ == id_text("run"@, self.0),
            WorkflowRunId::parsed(s@) == Some(*self),
    {
        format_id("run", self.0)
    }

    /// What parsing `text` gives, if it succeeds.
    pub open spec fn parsed(text: Seq<char>) -> Option<Self> {
        match parse_id_text(text, "run"@) {
            Ok(v) => Some(WorkflowRunId(v)),
            Err(_) => None,
        }
    }

    /// Parses `run_ULID` or a bare ULID.
    pub fn parse_str(text: &str) -> (r: Result<Self, ParseIdError>)
        ensures
            r is Ok <==> WorkflowRunId::parsed(text@) is Some,
            r matches Ok(id) ==> WorkflowRunId::parsed(text@) == Some(id),
            r matches Err(e) ==> e.id_type@ == "WorkflowRunId"@ && e.reason@ == parse_id_text(text@, "run"@)->Err_0,
    {
        match parse_id(text, "run", "WorkflowRunId") {
            Ok(v) => Ok(WorkflowRunId(v)),
            Err(e) => Err(e),
        }
    }
}

/// Unique identifier for a conversation session (text prefix `sess`).
#[derive(Debug, Clone, Copy, PartialEq, Eq, Hash, Structural)]
pub struct ConversationSessionId(pub u128);

impl ConversationSessionId {
    /// A new identifier with a freshly generated ULID.
    pub fn new() -> Self {
        ConversationSessionId(fresh_ulid())
    }

    /// The identifier with the given ULID value.
    pub fn from_ulid(ulid: u128) -> (r: Self)
        ensures
            r.0 == ulid,
    {
        ConversationSessionId(ulid)
    }

    /// The underlying ULID value.
    pub fn as_ulid(&self) -> (r: u128)
        ensures
            r == self.0,
    {
        self.0
    }

    /// The prefix of the text form.
    pub fn prefix() -> (r: &'static str)
        ensures
            r@ == "sess"@,
    {
        "sess"
    }

    /// The text form `sess_ULID`; parsing it gives this identifier back.
    pub fn to_string(&self) -> (s: String)
        ensures
            s@ == id_text("sess"@, self.0),
            ConversationSessionId::parsed(s@) == Some(*self),
    {
        format_id("sess", self.0)
    }

    /// What parsing `text` gives, if it succeeds.
    pub open spec fn parsed(text: Seq<char>) -> Option<Self> {
        match parse_id_text(text, "sess"@) {
            Ok(v) => Some(ConversationSessionId(v)),
            Err(_) => None,
        }
    }

    /// Parses `sess_ULID` or a bare ULID.
    pub fn parse_str(text: &str) -> (r: Result<Self, ParseIdError>)
        ensures
            r is Ok <==> ConversationSessionId::parsed(text@) is Some,
            r matches Ok(id) ==> ConversationSessionId::parsed(text@) == Some(id),
            r matches Err(e) ==> e.id_type@ == "ConversationSessionId"@ && e.reason@ == parse_id_text(text@, "sess"@)->Err_0,
    {
        match parse_id(text, "sess", "ConversationSessionId") {
            Ok(v) => Ok(ConversationSessionId(v)),
            Err(e) => Err(e),
        }
    }
}

/// Unique identifier for a message within a conversation (text prefix `msg`).
#[derive(Debug, Clone, Copy, PartialEq, Eq, Hash, Structural)]
pub struct MessageId(pub u128);

impl MessageId {
    /// A new identifier with a freshly generated ULID.
    pub fn new() -> Self {
        MessageId(fresh_ulid())
    }

    /// The identifier with the given ULID value.
    pub fn from_ulid(ulid: u128) -> (r: Self)
        ensures
            r.0 == ulid,
    {
        MessageId(ulid)
    }

    /// The underlying ULID value.
    pub fn as_ulid(&self) -> (r: u128)
        ensures
            r == self.0,
    {
        self.0
    }

    /// The prefix of the text form.
    pub fn prefix() -> (r: &'static str)
        ensures
            r@ == "msg"@,
    {
        "msg"
    }

    /// The text form `msg_ULID`; parsing it gives this identifier back.
    pub fn to_string(&self) -> (s: String)
        ensures
            s@ == id_text("msg"@, self.0),
            MessageId::parsed(s@) == Some(*self),
    {
        format_id("msg", self.0)
    }

    /// What parsing `text` gives, if it succeeds.
    pub open spec fn parsed(text: Seq<char>) -> Option<Self> {
        match parse_id_text(text, "msg"@) {
            Ok(v) => Some(MessageId(v)),
            Err(_) => None,
        }
    }

    /// Parses `msg_ULID` or a bare ULID.
    pub fn parse_str(text: &str) -> (r: Result<Self, ParseIdError>)
        ensures
            r is Ok <==> MessageId::parsed(text@) is Some,
            r matches Ok(id) ==> MessageId::parsed(text@) == Some(id),
            r matches Err(e) ==> e.id_type@ == "MessageId"@ && e.reason@ == parse_id_text(text@, "msg"@)->Err_0,
    {
        match parse_id(text, "msg", "MessageId") {
            Ok(v) => Ok(MessageId(v)),
            Err(e) => Err(e),
        }
    }
}

/// Unique identifier for an integration account (text prefix `int`).
#[derive(Debug, Clone, Copy, PartialEq, Eq, Hash, Structural)]
pub struct IntegrationAccountId(pub u128);

impl IntegrationAccountId {
    /// A new identifier with a freshly generated ULID.
    pub fn new() -> Self {
        IntegrationAccountId(fresh_ulid())
    }

    /// The identifier with the given ULID value.
    pub fn from_ulid(ulid: u128) -> (r: Self)
        ensures
            r.0 == ulid,
    {
        IntegrationAccountId(ulid)
    }

    /// The underlying ULID value.
    pub fn as_ulid(&self) -> (r: u128)
        ensures
            r == self.0,
    {
        self.0
    }

    /// The prefix of the text form.
    pub fn prefix() -> (r: &'static str)
        ensures
            r@ == "int"@,
    {
        "int"
    }

    /// The text form `int_ULID`; parsing it gives this identifier back.
    pub fn to_string(&self) -> (s: String)
        ensures
            s@ == id_text("int"@, self.0),
            IntegrationAccountId::parsed(s@) == Some(*self),
    {
        format_id("int", self.0)
    }

    /// What parsing `text` gives, if it succeeds.
    pub open spec fn parsed(text: Seq<char>) -> Option<Self> {
        match parse_id_text(text, "int"@) {
            Ok(v) => Some(IntegrationAccountId(v)),
            Err(_) => None,
        }
    }

    /// Parses `int_ULID` or a bare ULID.
    pub fn parse_str(text: &str) -> (r: Result<Self, ParseIdError>)
        ensures
            r is Ok <==> IntegrationAccountId::parsed(text@) is Some,
            r matches Ok(id) ==> IntegrationAccountId::parsed(text@) == Some(id),
            r matches Err(e) ==> e.id_type@ == "IntegrationAccountId"@ && e.reason@ == parse_id_text(text@, "int"@)->Err_0,
    {
        match parse_id(text, "int", "IntegrationAccountId") {
            Ok(v) => Ok(IntegrationAccountId(v)),
            Err(e) => Err(e),
        }
    }
}

/// Unique identifier for a stored credential (text prefix `cred`).
#[derive(Debug, Clone, Copy, PartialEq, Eq, Hash, Structural)]
pub struct CredentialId(pub u128);

impl CredentialId {
    /// A new identifier with a freshly generated ULID.
    pub fn new() -> Self {
        CredentialId(fresh_ulid())
    }

    /// The identifier with the given ULID value.
    pub fn from_ulid(ulid: u128) -> (r: Self)
        ensures
            r.0 == ulid,
    {
        CredentialId(ulid)
    }

    /// The underlying ULID value.
    pub fn as_ulid(&self) -> (r: u128)
        ensures
            r == self.0,
    {
        self.0
    }

    /// The prefix of the text form.
    pub fn prefix() -> (r: &'static str)
        ensures
            r@ == "cred"@,
    {
        "cred"
    }

    /// The text form `cred_ULID`; parsing it gives this identifier back.
    pub fn to_string(&self) -> (s: String)
        ensures
            s@ == id_text("cred"@, self.0),
            CredentialId::parsed(s@) == Some(*self),
    {
        format_id("cred", self.0)
    }

    /// What parsing `text` gives, if it succeeds.
    pub open spec fn parsed(text: Seq<char>) -> Option<Self> {
        match parse_id_text(text, "cred"@) {
            Ok(v) => Some(CredentialId(v)),
            Err(_) => None,
        }
    }

    /// Parses `cred_ULID` or a bare ULID.
    pub fn parse_str(text: &str) -> (r: Result<Self, ParseIdError>)
        ensures
            r is Ok <==> CredentialId::parsed(text@) is Some,
            r matches Ok(id) ==> CredentialId::parsed(text@) == Some(id),
            r matches Err(e) ==> e.id_type@ == "CredentialId"@ && e.reason@ == parse_id_text(text@, "cred"@)->Err_0,
    {
        match parse_id(text, "cred", "CredentialId") {
            Ok(v) => Ok(CredentialId(v)),
            Err(e) => Err(e),
        }
    }
}

/// Unique identifier for a trigger (text prefix `trg`).
#[derive(Debug, Clone, Copy, PartialEq, Eq, Hash, Structural)]
pub struct TriggerId(pub u128);

impl TriggerId {
    /// A new identifier with a freshly generated ULID.
    pub fn new() -> Self {
        TriggerId(fresh_ulid())
    }

    /// The identifier with the given ULID value.
    pub fn from_ulid(ulid: u128) -> (r: Self)
        ensures
            r.0 == ulid,
    {
        TriggerId(ulid)
    }

    /// The underlying ULID value.
    pub fn as_ulid(&self) -> (r: u128)
        ensures
            r == self.0,
    {
        self.0
    }

    /// The prefix of the text form.
    pub fn prefix() -> (r: &'static str)
        ensures
            r@ == "trg"@,
    {
        "trg"
    }

    /// The text form `trg_ULID`; parsing it gives this identifier back.
    pub fn to_string(&self) -> (s: String)
        ensures
            s@ == id_text("trg"@, self.0),
            TriggerId::parsed(s@) == Some(*self),
    {
        format_id("trg", self.0)
    }

    /// What parsing `text` gives, if it succeeds.
    pub open spec fn parsed(text: Seq<char>) -> Option<Self> {
        match parse_id_text(text, "trg"@) {
            Ok(v) => Some(TriggerId(v)),
            Err(_) => None,
        }
    }

    /// Parses `trg_ULID` or a bare ULID.
    pub fn parse_str(text: &str) -> (r: Result<Self, ParseIdError>)
        ensures
            r is Ok <==> TriggerId::parsed(text@) is Some,
            r matches Ok(id) ==> TriggerId::parsed(text@) == Some(id),
            r matches Err(e) ==> e.id_type@ == "TriggerId"@ && e.reason@ == parse_id_text(text@, "trg"@)->Err_0,
    {
        match parse_id(text, "trg", "TriggerId") {
            Ok(v) => Ok(TriggerId(v)),
            Err(e) => Err(e),
        }
    }
}

/// Unique identifier for a node execution record within a workflow run (text prefix `nexec`).
#[derive(Debug, Clone, Copy, PartialEq, Eq, Hash, Structural)]
pub struct NodeExecutionId(pub u128);

impl NodeExecutionId {
    /// A new identifier with a freshly generated ULID.
    pub fn new() -> Self {
        NodeExecutionId(fresh_ulid())
    }

    /// The identifier with the given ULID value.
    pub fn from_ulid(ulid: u128) -> (r: Self)
        ensures
            r.0 == ulid,
    {
        NodeExecutionId(ulid)
    }

    /// The underlying ULID value.
    pub fn as_ulid(&self) -> (r: u128)
        ensures
            r == self.0,
    {
        self.0
    }

    /// The prefix of the text form.
    pub fn prefix() -> (r: &'static str)
        ensures
            r@ == "nexec"@,
    {
        "nexec"
    }

    /// The text form `nexec_ULID`; parsing it gives this identifier back.
    pub fn to_string(&self) -> (s: String)
        ensures
            s@ == id_text("nexec"@, self.0),
            NodeExecutionId::parsed(s@) == Some(*self),
    {
        format_id("nexec", self.0)
    }

    /// What parsing `text` gives, if it succeeds.
    pub open spec fn parsed(text: Seq<char>) -> Option<Self> {
        match parse_id_text(text, "nexec"@) {
            Ok(v) => Some(NodeExecutionId(v)),
            Err(_) => None,
        }
    }

    /// Parses `nexec_ULID` or a bare ULID.
    pub fn parse_str(text: &str) -> (r: Result<Self, ParseIdError>)
        ensures
            r is Ok <==> NodeExecutionId::parsed(text@) is Some,
            r matches Ok(id) ==> NodeExecutionId::parsed(text@) == Some(id),
            r matches Err(e) ==> e.id_type@ == "NodeExecutionId"@ && e.reason@ == parse_id_text(text@, "nexec"@)->Err_0,
    {
        match parse_id(text, "nexec", "NodeExecutionId") {
            Ok(v) => Ok(NodeExecutionId(v)),
            Err(e) => Err(e),
        }
    }
}

impl std::str::FromStr for UserId {
    type Err = ParseIdError;

    fn from_str(s: &str) -> (r: Result<Self, Self::Err>)
        ensures
            r is Ok <==> UserId::parsed(s@) is Some,
            r matches Ok(id) ==> UserId::parsed(s@) == Some(id),
            r matches Err(e) ==> e.id_type@ == "UserId"@ && e.reason@ == parse_id_text(s@, "usr"@)->Err_0,
    {
        UserId::parse_str(s)
    }
}

impl std::str::FromStr for WorkflowId {
    type Err = ParseIdError;

    fn from_str(s: &str) -> (r: Result<Self, Self::Err>)
        ensures
            r is Ok <==> WorkflowId::parsed(s@) is Some,
            r matches Ok(id) ==> WorkflowId::parsed(s@) == Some(id),
            r matches Err(e) ==> e.id_type@ == "WorkflowId"@ && e.reason@ == parse_id_text(s@, "wf"@)->Err_0,
    {
        WorkflowId::parse_str(s)
    }
}

impl std::str::FromStr for WorkflowRunId {
    type Err = ParseIdError;

    fn from_str(s: &str) -> (r: Result<Self, Self::Err>)
        ensures
            r is Ok <==> WorkflowRunId::parsed(s@) is Some,
            r matches Ok(id) ==> WorkflowRunId::parsed(s@) == Some(id),
            r matches Err(e) ==> e.id_type@ == "WorkflowRunId"@ && e.reason@ == parse_id_text(s@, "run"@)->Err_0,
    {
        WorkflowRunId::parse_str(s)
    }
}

impl std::str::FromStr for ConversationSessionId {
    type Err = ParseIdError;

    fn from_str(s: &str) -> (r: Result<Self, Self::Err>)
        ensures
            r is Ok <==> ConversationSessionId::parsed(s@) is Some,
            r matches Ok(id) ==> ConversationSessionId::parsed(s@) == Some(id),
            r matches Err(e) ==> e.id_type@ == "ConversationSessionId"@ && e.reason@ == parse_id_text(s@, "sess"@)->Err_0,
    {
        ConversationSessionId::parse_str(s)
    }
}

impl std::str::FromStr for MessageId {
    type Err = ParseIdError;

    fn from_str(s: &str) -> (r: Result<Self, Self::Err>)
        ensures
            r is Ok <==> MessageId::parsed(s@) is Some,
            r matches Ok(id) ==> MessageId::parsed(s@) == Some(id),
            r matches Err(e) ==> e.id_type@ == "MessageId"@ && e.reason@ == parse_id_text(s@, "msg"@)->Err_0,
    {
        MessageId::parse_str(s)
    }
}

impl std::str::FromStr for IntegrationAccountId {
    type Err = ParseIdError;

    fn from_str(s: &str) -> (r: Result<Self, Self::Err>)
        ensures
            r is Ok <==> IntegrationAccountId::parsed(s@) is Some,
            r matches Ok(id) ==> IntegrationAccountId::parsed(s@) == Some(id),
            r matches Err(e) ==> e.id_type@ == "IntegrationAccountId"@ && e.reason@ == parse_id_text(s@, "int"@)->Err_0,
    {
        IntegrationAccountId::parse_str(s)
    }
}

impl std::str::FromStr for CredentialId {
    type Err = ParseIdError;

    fn from_str(s: &str) -> (r: Result<Self, Self::Err>)
        ensures
            r is Ok <==> CredentialId::parsed(s@) is Some,
            r matches Ok(id) ==> CredentialId::parsed(s@) == Some(id),
            r matches Err(e) ==> e.id_type@ == "CredentialId"@ && e.reason@ == parse_id_text(s@, "cred"@)->Err_0,
    {
        CredentialId::parse_str(s)
    }
}

impl std::str::FromStr for TriggerId {
    type Err = ParseIdError;

    fn from_str(s: &str) -> (r: Result<Self, Self::Err>)
        ensures
            r is Ok <==> TriggerId::parsed(s@) is Some,
            r matches Ok(id) ==> TriggerId::parsed(s@) == Some(id),
            r matches Err(e) ==> e.id_type@ == "TriggerId"@ && e.reason@ == parse_id_text(s@, "trg"@)->Err_0,
    {
        TriggerId::parse_str(s)
    }
}

impl std::str::FromStr for NodeExecutionId {
    type Err = ParseIdError;

    fn from_str(s: &str) -> (r: Result<Self, Self::Err>)
        ensures
            r is Ok <==> NodeExecutionId::parsed(s@) is Some,
            r matches Ok(id) ==> NodeExecutionId::parsed(s@) == Some(id),
            r matches Err(e) ==> e.id_type@ == "NodeExecutionId"@ && e.reason@ == parse_id_text(s@, "nexec"@)->Err_0,
    {
        NodeExecutionId::parse_str(s)
    }
}

} // verus!

