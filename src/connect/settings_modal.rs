use vstd::prelude::*;

use crate::config::User;

verus! {

/// What the settings form reacts to.
#[derive(Clone, Copy, Debug, PartialEq, Eq, Structural)]
pub enum Message {
    Close,
}

/// What the settings form asks of the screen that shows it.
#[derive(Clone, Copy, Debug, PartialEq, Eq, Structural)]
pub enum Action {
    Close,
}

/// Handles `message` for the settings of `user`; the user is left as it was.
pub fn update(user: &mut User, message: Message) -> (r: Action)
    ensures
        *final(user) == *old(user),
        r == Action::Close,
{
    match message {
        Message::Close => Action::Close,
    }
}

} // verus!
