//! Messages of a dialog.

use vstd::prelude::*;

verus! {

/// Who speaks in a message.
#[derive(Debug, Clone, Copy, PartialEq, Eq, Structural)]
pub enum MessageRole {
    System,
    User,
    Assistant,
}

/// One message of a dialog.
#[derive(Debug)]
pub struct Message {
    pub role: MessageRole,
    pub content: String,
}

impl Message {
    /// A message that sets the rules of the dialog.
    pub fn system(content: String) -> (res: Self)
        ensures
            res == (Message { role: MessageRole::System, content }),
    {
        Message { role: MessageRole::System, content }
    }

    /// A message of the user.
    pub fn user(content: String) -> (res: Self)
        ensures
            res == (Message { role: MessageRole::User, content }),
    {
        Message { role: MessageRole::User, content }
    }
}

} // verus!
