//! The chat room: the messages received so far, and the input box that
//! turns key presses into an outgoing message.

use vstd::prelude::*;
use vstd::string::StringExecFns;

verus! {

/// Key presses an input box keeps for one message.
pub const MAX_MESSAGE_KEYS: usize = 1024;

/// A chat message as it travels between room members.
pub struct Message {
    /// The sender's display name.
    pub username: String,
    /// The sender's avatar address.
    pub avatar: String,
    /// What the sender wrote.
    pub content: String,
}

/// The signed-in user, as the identity endpoint reports it.
pub struct UserInfo {
    pub username: String,
    pub avatar: String,
}

/// The room's chat webhook, as the webhook endpoint reports it.
pub struct Webhook {
    pub url: String,
}

/// The chat display: every message received, oldest first. The list is
/// never cleared.
pub struct ChatRoom {
    pub room_id: String,
    pub messages: Vec<Message>,
}

impl ChatRoom {
    /// A room with no messages yet.
    pub fn new(room_id: String) -> (r: ChatRoom)
        ensures
            r.room_id == room_id,
            r.messages@ == Seq::<Message>::empty(),
    {
        ChatRoom { room_id, messages: Vec::new() }
    }

    /// A message arrived: it joins the end of the list.
    pub fn on_message(&mut self, message: Message)
        ensures
            final(self).messages@ == old(self).messages@.push(message),
            final(self).room_id == old(self).room_id,
    {
        self.messages.push(message);
    }
}

/// What the input box is told.
pub enum TextInputEvents {
    /// A key was pressed; its name.
    KeyPress(String),
    /// The send button was pressed.
    Submit,
    /// The identity lookup answered.
    WhoAmI(UserInfo),
    /// The webhook lookup answered.
    Webhook(Webhook),
    /// A lookup failed.
    RequestError,
}

/// A message to post to the room's webhook and to publish to the room.
pub struct ChatSubmission {
    pub room_id: String,
    pub webhook_url: String,
    pub message: Message,
}

/// The keys of a message joined into its text.
pub open spec fn joined(keys: Seq<String>) -> Seq<char>
    decreases keys.len(),
{
    if keys.len() == 0 {
        Seq::empty()
    } else {
        joined(keys.drop_last()) + keys.last()@
    }
}

fn join_keys(keys: &Vec<String>) -> (r: String)
    ensures
        r@ == joined(keys@),
{
    let mut r = String::new();
    let mut i: usize = 0;
    while i < keys.len()
        invariant
            i <= keys@.len(),
            r@ == joined(keys@.subrange(0, i as int)),
        decreases keys.len() - i,
    {
        assert(keys@.subrange(0, i + 1).drop_last() =~= keys@.subrange(0, i as int));
        r.append(keys[i].as_str());
        i = i + 1;
    }
    assert(keys@.subrange(0, keys@.len() as int) =~= keys@);
    r
}

fn copy_string(s: &String) -> (r: String)
    ensures
        r@ == s@,
{
    String::from_str(s.as_str())
}

/// What sending does: with no user known, nothing; otherwise the keys
/// written so far become the content of a message under the user's name,
/// and the box empties.
pub open spec fn submitted(pre: TextInput, post: TextInput, r: (bool, Option<ChatSubmission>)) -> bool {
    match pre.user {
        None => r == (false, None::<ChatSubmission>) && post == pre,
        Some(u) => {
            &&& r.0
            &&& r.1 matches Some(s) && s.room_id@ == pre.room_id@ && s.webhook_url@
                == pre.webhook_url@ && s.message.username@ == u.username@ && s.message.avatar@
                == u.avatar@ && s.message.content@ == joined(pre.msg@)
            &&& post.msg@ == Seq::<String>::empty()
            &&& post.user == pre.user
            &&& post.room_id == pre.room_id
            &&& post.webhook_url == pre.webhook_url
        },
    }
}

/// The chat input box.
pub struct TextInput {
    pub room_id: String,
    /// The keys of the message being written.
    pub msg: Vec<String>,
    /// Who is signed in, once known; without it nothing can be sent.
    pub user: Option<UserInfo>,
    pub webhook_url: String,
}

impl TextInput {
    /// An empty input box; the user is not known yet.
    pub fn new(room_id: String) -> (r: TextInput)
        ensures
            r.room_id == room_id,
            r.msg@ == Seq::<String>::empty(),
            r.user is None,
            r.webhook_url@ == Seq::<char>::empty(),
    {
        TextInput { room_id, msg: Vec::new(), user: None, webhook_url: String::new() }
    }

    /// Sends the message written so far: its keys are joined and cleared,
    /// and the message goes out under the signed-in user's name. With no
    /// user known nothing happens. Returns whether the box is to be
    /// redrawn, and what to send.
    pub fn submit(&mut self) -> (r: (bool, Option<ChatSubmission>))
        ensures
            submitted(*old(self), *final(self), r),
    {
        match &self.user {
            Some(user) => {
                let content = join_keys(&self.msg);
                let message = Message {
                    username: copy_string(&user.username),
                    avatar: copy_string(&user.avatar),
                    content,
                };
                self.msg.clear();
                let submission = ChatSubmission {
                    room_id: copy_string(&self.room_id),
                    webhook_url: copy_string(&self.webhook_url),
                    message,
                };
                (true, Some(submission))
            },
            None => (false, None),
        }
    }

    /// Handles one event. A key press before the user is known is ignored;
    /// `Enter` sends; any other key is kept while the message holds fewer
    /// than the key limit. The lookups' answers are stored; a failed lookup
    /// changes nothing. Returns whether the box is to be redrawn, and what
    /// to send.
    pub fn update(&mut self, event: TextInputEvents) -> (r: (bool, Option<ChatSubmission>))
        ensures
            match event {
                TextInputEvents::KeyPress(key) => {
                    if old(self).user is None {
                        r == (true, None::<ChatSubmission>) && *final(self) == *old(self)
                    } else if key@ == "Enter"@ {
                        submitted(*old(self), *final(self), r)
                    } else {
                        &&& r == (false, None::<ChatSubmission>)
                        &&& final(self).msg@ == if old(self).msg@.len() < MAX_MESSAGE_KEYS {
                            old(self).msg@.push(key)
                        } else {
                            old(self).msg@
                        }
                        &&& final(self).user == old(self).user
                        &&& final(self).room_id == old(self).room_id
                        &&& final(self).webhook_url == old(self).webhook_url
                    }
                },
                TextInputEvents::Submit => submitted(*old(self), *final(self), r),
                TextInputEvents::WhoAmI(u) => r == (false, None::<ChatSubmission>) && final(self).user == Some(u) && final(self).msg == old(self).msg && final(self).room_id == old(self).room_id && final(self).webhook_url == old(self).webhook_url,
                TextInputEvents::Webhook(w) => r == (false, None::<ChatSubmission>)
                    && final(self).webhook_url == w.url && final(self).msg == old(self).msg
                    && final(self).room_id == old(self).room_id && final(self).user == old(self).user,
                TextInputEvents::RequestError => r == (false, None::<ChatSubmission>) && *final(self)
                    == *old(self),
            },
    {
        match event {
            TextInputEvents::Submit => self.submit(),
            TextInputEvents::KeyPress(key) => {
                if self.user.is_none() {
                    return (true, None);
                }
                if key == String::from_str("Enter") {
                    return self.submit();
                }
                if self.msg.len() < MAX_MESSAGE_KEYS {
                    self.msg.push(key);
                }
                (false, None)
            },
            TextInputEvents::WhoAmI(user) => {
                self.user = Some(user);
                (false, None)
            },
            TextInputEvents::Webhook(wh) => {
                self.webhook_url = wh.url;
                (false, None)
            },
            TextInputEvents::RequestError => (false, None),
        }
    }
}

} // verus!
