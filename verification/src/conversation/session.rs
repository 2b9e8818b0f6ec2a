//! Conversation sessions: the messages of one conversation, its mode, and
//! a title taken from the first user message.

use vstd::prelude::*;
use crate::support::text::{owned, concat2, chars_of, utf8_len, char_utf8_len, char_byte_len, lemma_utf8_prefix_grows};
use crate::support::clock::now_millis;
use crate::platform_core::id::{ConversationSessionId, UserId};
use crate::conversation::message::{Message, MessageRole};

verus! {

/// The mode of a session.
#[derive(Debug, Clone, Copy, PartialEq, Eq, Structural)]
pub enum SessionState {
    /// Normal conversation.
    Active,
    /// Authoring a workflow.
    Authoring,
    /// Ended: no more messages.
    Ended,
}

impl SessionState {
    /// Whether the session accepts messages (active or authoring).
    pub fn can_accept_messages(&self) -> (r: bool)
        ensures
            r == (*self == SessionState::Active || *self == SessionState::Authoring),
    {
        match self {
            SessionState::Active | SessionState::Authoring => true,
            SessionState::Ended => false,
        }
    }

    /// Whether the session has ended.
    pub fn is_ended(&self) -> (r: bool)
        ensures
            r == (*self == SessionState::Ended),
    {
        match self {
            SessionState::Ended => true,
            _ => false,
        }
    }
}

/// Metadata of a session.
#[derive(Debug, Clone)]
pub struct SessionMetadata {
    /// Title, once generated or set.
    pub title: Option<String>,
}

impl Default for SessionMetadata {
    /// No title.
    fn default() -> (r: Self)
        ensures
            r.title is None,
    {
        SessionMetadata { title: None }
    }
}

/// The prefix of a text that takes exactly `n` bytes, if some prefix does.
pub open spec fn has_byte_prefix(s: Seq<char>, n: nat) -> bool {
    exists|k: int| 0 <= k <= s.len() && #[trigger] utf8_len(s.take(k)) == n
}

/// The title of a conversation whose first user message says `content`:
/// the content, or when it takes more than 50 bytes, its first 47 bytes and
/// `...`.
pub open spec fn title_text(content: Seq<char>) -> Seq<char> {
    if utf8_len(content) > 50 {
        content.take(choose|k: int| 0 <= k <= content.len() && #[trigger] utf8_len(content.take(k)) == 47) + "..."@
    } else {
        content
    }
}

/// The index of the first user message, if any.
pub open spec fn first_user_index(msgs: Seq<Message>) -> Option<int>
    decreases msgs.len(),
{
    if msgs.len() == 0 {
        None
    } else {
        match first_user_index(msgs.drop_last()) {
            Some(i) => Some(i),
            None => if msgs.last().role == MessageRole::User {
                Some(msgs.len() - 1)
            } else {
                None
            },
        }
    }
}

/// The first user message's index is a user message with none before it.
pub proof fn lemma_first_user_index(msgs: Seq<Message>)
    ensures
        first_user_index(msgs) matches Some(i) ==> 0 <= i < msgs.len() && msgs[i].role == MessageRole::User && forall|
            j: int,
        | 0 <= j < i ==> msgs[j].role != MessageRole::User,
        first_user_index(msgs) is None ==> forall|j: int| 0 <= j < msgs.len() ==> msgs[j].role != MessageRole::User,
    decreases msgs.len(),
{
    if msgs.len() > 0 {
        let prev = msgs.drop_last();
        lemma_first_user_index(prev);
        assert forall|j: int| 0 <= j < prev.len() implies prev[j] == msgs[j] by {}
    }
}

/// The title that a session's messages give: that of the first user
/// message, if there is one.
pub open spec fn generated_title(msgs: Seq<Message>) -> Option<Seq<char>> {
    match first_user_index(msgs) {
        Some(i) => Some(title_text(msgs[i].content@)),
        None => None,
    }
}

/// The title can be cut: the first user message is short, or its first 47
/// bytes end at a character boundary.
pub open spec fn title_cuttable(msgs: Seq<Message>) -> bool {
    first_user_index(msgs) matches Some(i) ==> (utf8_len(msgs[i].content@) > 50 ==> has_byte_prefix(
        msgs[i].content@,
        47,
    ))
}

/// The title for a message content.
fn title_for(content: &str) -> (r: String)
    requires
        utf8_len(content@) > 50 ==> has_byte_prefix(content@, 47),
    ensures
        r@ == title_text(content@),
{
    let t = chars_of(content);
    let mut bytes: usize = 0;
    let mut cut: Option<usize> = None;
    let mut i: usize = 0;
    assert(content@.take(0) =~= Seq::<char>::empty());
    while i < t.len() && bytes <= 50
        invariant
            t@ == content@,
            i <= t@.len(),
            bytes == utf8_len(content@.take(i as int)),
            bytes <= 54,
            cut matches Some(k) ==> k <= i && utf8_len(content@.take(k as int)) == 47,
            cut is None ==> forall|k: int| 0 <= k < i ==> utf8_len(content@.take(k)) != 47,
        decreases t@.len() - i,
    {
        if bytes == 47 {
            cut = Some(i);
        }
        assert(content@.take(i + 1).drop_last() =~= content@.take(i as int));
        assert(content@.take(i + 1).last() == t@[i as int]);
        bytes = bytes + char_byte_len(t[i]);
        i = i + 1;
    }
    if bytes == 47 && cut.is_none() {
        cut = Some(i);
    }
    if bytes > 50 {
        proof {
            assert(content@.take(t@.len() as int) =~= content@);
            if i < t@.len() {
                lemma_utf8_prefix_grows(content@, i as int, t@.len() as int);
            }
            let k = choose|k: int| 0 <= k <= content@.len() && #[trigger] utf8_len(content@.take(k)) == 47;
            if k > i {
                lemma_utf8_prefix_grows(content@, i as int, k);
            }
            if cut is None {
                assert(utf8_len(content@.take(k)) == 47);
                assert(k != i);
                assert(false);
            }
            let c = cut->Some_0 as int;
            if c < k {
                lemma_utf8_prefix_grows(content@, c, k);
            } else if k < c {
                lemma_utf8_prefix_grows(content@, k, c);
            }
            assert(c == k);
        }
        let k = cut.unwrap();
        let head = content.substring_char(0, k);
        proof {
            assert(head@ =~= content@.take(k as int));
        }
        concat2(head, "...")
    } else {
        proof {
            assert(content@.take(t@.len() as int) =~= content@);
        }
        owned(content)
    }
}

/// A conversation session.
#[derive(Debug)]
pub struct Session {
    /// Identifier.
    pub id: ConversationSessionId,
    /// The user.
    pub user_id: UserId,
    /// Mode.
    pub state: SessionState,
    /// Messages, oldest first.
    pub messages: Vec<Message>,
    /// When the session was created (milliseconds since the epoch).
    pub created_at: i64,
    /// When the session was last active.
    pub last_active_at: i64,
    /// Metadata.
    pub metadata: SessionMetadata,
}

impl Session {
    /// A new active session, created now, without messages or title.
    pub fn new(user_id: UserId) -> (r: Self)
        ensures
            r.user_id == user_id,
            r.state == SessionState::Active,
            r.messages@.len() == 0,
            r.created_at == r.last_active_at,
            r.metadata.title is None,
    {
        let now = now_millis();
        Session {
            id: ConversationSessionId::new(),
            user_id,
            state: SessionState::Active,
            messages: Vec::new(),
            created_at: now,
            last_active_at: now,
            metadata: SessionMetadata::default(),
        }
    }

    /// Appends a message and marks the session active now.
    pub fn add_message(&mut self, message: Message)
        ensures
            final(self).messages@ == old(self).messages@.push(message),
            final(self).id == old(self).id,
            final(self).user_id == old(self).user_id,
            final(self).state == old(self).state,
            final(self).created_at == old(self).created_at,
            final(self).metadata.title == old(self).metadata.title,
    {
        self.messages.push(message);
        self.last_active_at = now_millis();
    }

    /// Enters workflow authoring.
    pub fn enter_authoring_mode(&mut self)
        ensures
            final(self).state == SessionState::Authoring,
            final(self).messages == old(self).messages,
            final(self).id == old(self).id,
            final(self).user_id == old(self).user_id,
            final(self).created_at == old(self).created_at,
            final(self).metadata.title == old(self).metadata.title,
    {
        self.state = SessionState::Authoring;
        self.last_active_at = now_millis();
    }

    /// Leaves workflow authoring.
    pub fn exit_authoring_mode(&mut self)
        ensures
            final(self).state == SessionState::Active,
            final(self).messages == old(self).messages,
            final(self).id == old(self).id,
            final(self).user_id == old(self).user_id,
            final(self).created_at == old(self).created_at,
            final(self).metadata.title == old(self).metadata.title,
    {
        self.state = SessionState::Active;
        self.last_active_at = now_millis();
    }

    /// Ends the session.
    pub fn end(&mut self)
        ensures
            final(self).state == SessionState::Ended,
            final(self).messages == old(self).messages,
            final(self).id == old(self).id,
            final(self).user_id == old(self).user_id,
            final(self).created_at == old(self).created_at,
            final(self).last_active_at == old(self).last_active_at,
            final(self).metadata.title == old(self).metadata.title,
    {
        self.state = SessionState::Ended;
    }

    /// The number of messages.
    pub fn message_count(&self) -> (r: usize)
        ensures
            r == self.messages@.len(),
    {
        self.messages.len()
    }

    /// The newest message, if any.
    pub fn last_message(&self) -> (r: Option<&Message>)
        ensures
            self.messages@.len() == 0 ==> r is None,
            self.messages@.len() > 0 ==> r == Some(&self.messages@.last()),
    {
        if self.messages.len() == 0 {
            None
        } else {
            Some(&self.messages[self.messages.len() - 1])
        }
    }

    /// The messages written at or after `since`, oldest first.
    pub fn messages_since(&self, since: i64) -> (r: Vec<&Message>)
        ensures
            r@.map_values(|m: &Message| *m) == self.messages@.filter(|m: Message| m.timestamp >= since),
    {
        let mut out: Vec<&Message> = Vec::new();
        let mut i: usize = 0;
        let ghost f = |m: Message| m.timestamp >= since;
        assert(self.messages@.take(0).filter(f) =~= Seq::<Message>::empty());
        while i < self.messages.len()
            invariant
                i <= self.messages@.len(),
                f == (|m: Message| m.timestamp >= since),
                out@.map_values(|m: &Message| *m) == self.messages@.take(i as int).filter(f),
            decreases self.messages@.len() - i,
        {
            let ghost before = out@;
            proof {
                let s = self.messages@.take(i + 1);
                assert(s.drop_last() =~= self.messages@.take(i as int));
                assert(s.last() == self.messages@[i as int]);
                reveal(Seq::filter);
            }
            if self.messages[i].timestamp >= since {
                out.push(&self.messages[i]);
                proof {
                    assert(out@.map_values(|m: &Message| *m) =~= before.map_values(|m: &Message| *m).push(
                        self.messages@[i as int],
                    ));
                }
            }
            i = i + 1;
        }
        assert(self.messages@.take(self.messages@.len() as int) =~= self.messages@);
        out
    }

    /// Sets the title from the first user message, unless there is a title
    /// already: its content, or when it takes more than 50 bytes, its first
    /// 47 bytes and `...`.
    pub fn generate_title(&mut self)
        requires
            old(self).metadata.title is None ==> title_cuttable(old(self).messages@),
        ensures
            final(self).messages == old(self).messages,
            final(self).id == old(self).id,
            final(self).user_id == old(self).user_id,
            final(self).state == old(self).state,
            final(self).created_at == old(self).created_at,
            final(self).last_active_at == old(self).last_active_at,
            old(self).metadata.title is Some ==> final(self).metadata.title == old(self).metadata.title,
            old(self).metadata.title is None ==> match generated_title(old(self).messages@) {
                None => final(self).metadata.title is None,
                Some(t) => final(self).metadata.title matches Some(s) && s@ == t,
            },
    {
        if self.metadata.title.is_some() {
            return;
        }
        proof {
            lemma_first_user_index(self.messages@);
        }
        let mut i: usize = 0;
        while i < self.messages.len()
            invariant
                *self == *old(self),
                old(self).metadata.title is None ==> title_cuttable(old(self).messages@),
                self.metadata.title is None,
                first_user_index(self.messages@) matches Some(fi) ==> 0 <= fi < self.messages@.len()
                    && self.messages@[fi].role == MessageRole::User && forall|j: int|
                    0 <= j < fi ==> self.messages@[j].role != MessageRole::User,
                first_user_index(self.messages@) is None ==> forall|j: int|
                    0 <= j < self.messages@.len() ==> self.messages@[j].role != MessageRole::User,
                i <= self.messages@.len(),
                forall|j: int| 0 <= j < i ==> self.messages@[j].role != MessageRole::User,
            decreases self.messages@.len() - i,
        {
            if self.messages[i].role == MessageRole::User {
                proof {
                    let fi = first_user_index(self.messages@);
                    assert(fi == Some(i as int)) by {
                        if fi is None {
                            assert(self.messages@[i as int].role != MessageRole::User);
                        } else {
                            let f = fi->Some_0;
                            if f < i {
                                assert(self.messages@[f].role != MessageRole::User);
                            } else if f > i {
                                assert(self.messages@[i as int].role != MessageRole::User);
                            }
                        }
                    }
                }
                let title = title_for(self.messages[i].content.as_str());
                self.metadata.title = Some(title);
                return;
            }
            i = i + 1;
        }
    }
}

} // verus!
