use vstd::prelude::*;

verus! {

/// A password field: the text typed, whether it is masked, and the hint shown when empty.
#[derive(Debug)]
pub struct State {
    pub value: String,
    pub secure: bool,
    pub placeholder: String,
}

/// What the password field reacts to.
#[derive(Clone, Debug)]
pub enum Message {
    UpdateValue(String),
    ToggleSecure,
    Submit,
    Clear,
}

impl State {
    /// An empty, masked field with the hint `placeholder`.
    pub fn new(placeholder: &str) -> (r: Self)
        ensures
            r.value@ == Seq::<char>::empty(),
            r.secure,
            r.placeholder@ == placeholder@,
    {
        State { value: String::new(), secure: true, placeholder: placeholder.to_owned() }
    }

    /// The text typed.
    pub fn value(&self) -> (r: &str)
        ensures
            r@ == self.value@,
    {
        self.value.as_str()
    }

    /// Handles `message`: a new text replaces the old one, a toggle flips the masking,
    /// clearing empties the text, and submitting changes nothing.
    pub fn update(&mut self, message: Message)
        ensures
            match message {
                Message::UpdateValue(v) => *final(self) == (State { value: v, ..*old(self) }),
                Message::ToggleSecure => *final(self) == (State {
                    secure: !old(self).secure,
                    ..*old(self)
                }),
                Message::Submit => *final(self) == *old(self),
                Message::Clear => {
                    &&& final(self).value@ == Seq::<char>::empty()
                    &&& *final(self) == (State { value: final(self).value, ..*old(self) })
                },
            },
    {
        match message {
            Message::UpdateValue(value) => self.value = value,
            Message::ToggleSecure => self.secure = !self.secure,
            Message::Submit => {},
            Message::Clear => self.value = String::new(),
        }
    }
}

impl Default for State {
    /// An empty, masked field with the hint `Password`.
    fn default() -> (r: Self)
        ensures
            r.value@ == Seq::<char>::empty(),
            r.secure,
            r.placeholder@ == "Password"@,
    {
        State::new("Password")
    }
}

} // verus!
