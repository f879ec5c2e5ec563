use vstd::prelude::*;

use crate::config::{AuthMethod, User};

verus! {

/// The form for a new user: the user being written and the token typed so far.
#[derive(Clone, Debug)]
pub struct State {
    pub user: User,
    pub token: String,
}

/// An edit of the form, or a request to close or submit it.
#[derive(Clone, Debug)]
pub enum Message {
    Username(String),
    Password,
    Api,
    Token(String),
    Close,
    Submit,
}

/// What the form asks of the screen that shows it.
#[derive(Clone, Copy, Debug, PartialEq, Eq, Structural)]
pub enum Action {
    Add,
    Close,
    Nothing,
}

impl Default for State {
    fn default() -> (r: Self)
        ensures
            r.is_fresh(),
    {
        State { user: User::default(), token: String::new() }
    }
}

impl State {
    /// A form with a blank user and no token.
    pub open spec fn is_fresh(self) -> bool {
        &&& self.user.is_blank()
        &&& self.token@ == Seq::<char>::empty()
    }

    /// The form after `message`. Choosing the API token method takes the token typed
    /// so far; typing a token updates the user's token only while that method is chosen.
    pub open spec fn next(self, message: Message) -> State {
        match message {
            Message::Username(name) => State { user: User { name, ..self.user }, ..self },
            Message::Password => State {
                user: User { auth_method: AuthMethod::Password, ..self.user },
                ..self
            },
            Message::Api => State {
                user: User { auth_method: AuthMethod::ApiToken(self.token), ..self.user },
                ..self
            },
            Message::Token(token) => State {
                user: if self.user.auth_method is ApiToken {
                    User { auth_method: AuthMethod::ApiToken(token), ..self.user }
                } else {
                    self.user
                },
                token,
            },
            Message::Close => self,
            Message::Submit => self,
        }
    }

    /// What the form asks for after `message`.
    pub open spec fn outcome(message: Message) -> Action {
        match message {
            Message::Close => Action::Close,
            Message::Submit => Action::Add,
            _ => Action::Nothing,
        }
    }

    /// Handles `message`, as `next` and `outcome` state.
    pub fn update(&mut self, message: Message) -> (r: Action)
        ensures
            *final(self) == old(self).next(message),
            r == State::outcome(message),
    {
        match message {
            Message::Username(name) => self.user.name = name,
            Message::Password => self.user.auth_method = AuthMethod::Password,
            Message::Api => self.user.auth_method = AuthMethod::ApiToken(self.token.clone()),
            Message::Token(token) => {
                self.token = token;
                if let AuthMethod::ApiToken(_) = &self.user.auth_method {
                    self.user.auth_method = AuthMethod::ApiToken(self.token.clone());
                }
            },
            Message::Close => return Action::Close,
            Message::Submit => return Action::Add,
        }
        Action::Nothing
    }
}

} // verus!
