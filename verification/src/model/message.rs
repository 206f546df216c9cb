use super::SessionInfo;
use crate::clock::WallTime;
use vstd::prelude::*;
use vstd::string::*;

verus! {

/// The contents of a message combined with the `MessageType`
#[derive(Debug, Clone, PartialEq, Eq)]
pub enum MessageContents {
    /// A normal message
    Text(String),
    /// A record, as the JSON document that stands for it
    Object(String),
    /// Voice recording: a record, as the JSON document that stands for it
    Sound(String),
    /// Invite to a session
    SessionInvite(Box<SessionInfo>),
    /// NCR/KFC related most likely: a credit transaction, as the JSON
    /// document that stands for it
    CreditTransfer(String),
    /// Kofi/tipping related..?
    SugarCubes(String),
}

impl MessageContents {
    /// The name of the kind of message, as the API writes it.
    pub open spec fn message_type_of(&self) -> Seq<char> {
        match self {
            MessageContents::Text(_) => "Text"@,
            MessageContents::Object(_) => "Object"@,
            MessageContents::Sound(_) => "Sound"@,
            MessageContents::SessionInvite(_) => "SessionInvite"@,
            MessageContents::CreditTransfer(_) => "CreditTransfer"@,
            MessageContents::SugarCubes(_) => "SugarCubes"@,
        }
    }

    /// The name of the kind of message, as the API writes it.
    #[must_use]
    pub fn message_type(&self) -> (r: &'static str)
        ensures
            r@ == self.message_type_of(),
    {
        match self {
            MessageContents::Text(_) => "Text",
            MessageContents::Object(_) => "Object",
            MessageContents::Sound(_) => "Sound",
            MessageContents::SessionInvite(_) => "SessionInvite",
            MessageContents::CreditTransfer(_) => "CreditTransfer",
            MessageContents::SugarCubes(_) => "SugarCubes",
        }
    }
}

/// A message between two users.
#[derive(Debug, Clone, PartialEq, Eq)]
pub struct Message {
    /// An UUID prefixed with `MSG-`
    pub id: String,
    /// The owner, so most likely the logged in user
    pub owner_id: crate::id::User,
    /// The sender of the message
    pub sender_id: crate::id::User,
    /// The receiver of the message
    pub recipient_id: crate::id::User,
    /// The contents of the message
    pub content: MessageContents,
    /// When the message was sent
    pub send_time: WallTime,
    /// When the message was last updated
    pub last_update_time: WallTime,
    /// When the message was read
    pub read_time: Option<WallTime>,
}

impl Message {
    /// Gets the ID recipient's if the owners ID doesn't match it, otherwise the
    /// sender's id is returned
    #[must_use]
    pub fn non_owner_id(&self) -> (r: &crate::id::User)
        ensures
            r@ == (if self.owner_id@ == self.recipient_id@ {
                self.sender_id@
            } else {
                self.recipient_id@
            }),
    {
        if crate::text::str_eq(self.owner_id.as_ref(), self.recipient_id.as_ref()) {
            &self.sender_id
        } else {
            &self.recipient_id
        }
    }

    /// Creates a new message, owned and sent by the same user at the time
    /// `now`, and not read yet. The ID is made of `random`, see
    /// [`new_id`](Self::new_id).
    #[must_use]
    pub fn new(
        content: MessageContents,
        owner_and_sender: crate::id::User,
        recipient: crate::id::User,
        random: &str,
        now: WallTime,
    ) -> (r: Self)
        ensures
            r.id@ == "MSG-"@ + random@,
            r.owner_id@ == owner_and_sender@,
            r.sender_id == owner_and_sender,
            r.recipient_id == recipient,
            r.content == content,
            r.send_time == now,
            r.last_update_time == now,
            r.read_time is None,
    {
        Message {
            owner_id: owner_and_sender.clone(),
            sender_id: owner_and_sender,
            recipient_id: recipient,
            content,
            id: Self::new_id(random),
            send_time: now,
            last_update_time: now,
            read_time: None,
        }
    }

    /// Makes the ID of a message out of a random text: the text behind the
    /// prefix `MSG-`.
    #[must_use]
    pub fn new_id(random: &str) -> (r: String)
        ensures
            r@ == "MSG-"@ + random@,
    {
        let mut r = String::from_str("MSG-");
        r.append(random);
        r
    }
}

} // verus!
