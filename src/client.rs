use vstd::prelude::*;

use crate::config::{AuthMethod, Cluster, Config, User};
use crate::connect;
use crate::connect::is_sample_listing;
use crate::login;

verus! {

/// The screen on show.
#[derive(Debug)]
pub enum Screen {
    Login(login::State),
    Connect(connect::State),
}

/// The client: the configuration and the screen on show.
#[derive(Debug)]
pub struct State {
    pub config: Config,
    pub screen: Screen,
}

/// What the client reacts to: a message for one of its screens, or a request to move
/// the keyboard focus.
#[derive(Clone, Debug)]
pub enum Message {
    Login(login::Message),
    Connect(connect::Message),
    FocusNext,
    FocusPrev,
}

/// What the client asks of the event loop after a message.
#[derive(Debug)]
pub enum Effect {
    Nothing,
    /// Handle this message next.
    Dispatch(Message),
    FocusNext,
    FocusPrev,
}

/// Whether `config` is the configuration the client starts with: one cluster,
/// `Cluster1`, with no hosts, whose default is its first user; its users are `User1`,
/// who logs in by password, and `User2`, who holds an API token; no viewer arguments.
pub open spec fn is_startup_config(config: Config) -> bool {
    &&& config.default_cluster == Some(0usize)
    &&& config.clusters@.len() == 1
    &&& config.clusters@[0].name@ == "Cluster1"@
    &&& config.clusters@[0].hosts@.len() == 0
    &&& config.clusters@[0].default_user == Some(0usize)
    &&& config.clusters@[0].users@.len() == 2
    &&& config.clusters@[0].users@[0].name@ == "User1"@
    &&& config.clusters@[0].users@[0].auth_method == AuthMethod::Password
    &&& config.clusters@[0].users@[1].name@ == "User2"@
    &&& config.clusters@[0].users@[1].auth_method matches AuthMethod::ApiToken(t) && t@
        == "PROXMOX-API-TOKEN"@
    &&& config.viewer_args@.len() == 0
}

/// Whether `next` is `config` with its clusters replaced by `clusters`.
pub open spec fn with_clusters(config: Config, next: Config, clusters: Seq<Cluster>) -> bool {
    &&& next.clusters@ == clusters
    &&& next == Config { clusters: next.clusters, ..config }
}

/// The message for a key press: none when a widget already handled the event or the key
/// is not Tab; otherwise a move of focus, backwards when Shift is held.
pub fn focus_message(captured: bool, tab_pressed: bool, shift: bool) -> (r: Option<Message>)
    ensures
        r == if captured || !tab_pressed {
            None
        } else if shift {
            Some(Message::FocusPrev)
        } else {
            Some(Message::FocusNext)
        },
{
    if captured || !tab_pressed {
        None
    } else if shift {
        Some(Message::FocusPrev)
    } else {
        Some(Message::FocusNext)
    }
}

impl State {
    /// The client at start: the startup configuration, on the login screen for it.
    pub fn new() -> (r: Self)
        ensures
            is_startup_config(r.config),
            r.screen matches Screen::Login(s) && s.is_initial(r.config),
    {
        let users = vec![
            User { name: "User1".to_owned(), auth_method: AuthMethod::Password },
            User {
                name: "User2".to_owned(),
                auth_method: AuthMethod::ApiToken("PROXMOX-API-TOKEN".to_owned()),
            },
        ];
        let config = Config {
            default_cluster: Some(0),
            clusters: vec![
                Cluster { name: "Cluster1".to_owned(), hosts: vec![], default_user: Some(0), users },
            ],
            viewer_args: vec![],
        };
        let screen = Screen::Login(login::State::new(&config));
        State { config, screen }
    }

    /// How `update` moves the client from `self` to `next` on `message`, answering
    /// `effect`. A message for the screen not on show is dropped. A login leads to the
    /// guest-selection screen of the session, with the guest listing to handle next; a
    /// logout leads back to the first login screen of the configuration as it now is.
    pub open spec fn transition(self, message: Message, next: State, effect: Effect) -> bool {
        match message {
            Message::Login(m) => match self.screen {
                Screen::Login(s) => exists|s2: login::State, c2: Seq<Cluster>, a: login::Action|
                    {
                        &&& #[trigger] s.transition(m, self.config.clusters@, s2, c2, a)
                        &&& with_clusters(self.config, next.config, c2)
                        &&& match a {
                            login::Action::Login(auth, user) => {
                                &&& next.screen == Screen::Connect(
                                    connect::State { auth, guests: None, user, show_modal: false },
                                )
                                &&& effect matches Effect::Dispatch(
                                    Message::Connect(connect::Message::GetGuests(g)),
                                ) && is_sample_listing(g@)
                            },
                            login::Action::Run(m2) => {
                                &&& next.screen == Screen::Login(s2)
                                &&& effect == Effect::Dispatch(Message::Login(m2))
                            },
                            _ => next.screen == Screen::Login(s2) && effect is Nothing,
                        }
                    },
                Screen::Connect(_) => next == self && effect is Nothing,
            },
            Message::Connect(m) => match self.screen {
                Screen::Connect(s) => exists|s2: connect::State, a: connect::Action|
                    {
                        &&& #[trigger] s.transition(m, s2, a)
                        &&& next.config == self.config
                        &&& match a {
                            connect::Action::Logout => {
                                &&& next.screen matches Screen::Login(l) && l.is_initial(
                                    self.config,
                                )
                                &&& effect is Nothing
                            },
                            connect::Action::Run(m2) => {
                                &&& next.screen == Screen::Connect(s2)
                                &&& effect == Effect::Dispatch(Message::Connect(m2))
                            },
                            connect::Action::Nothing => {
                                &&& next.screen == Screen::Connect(s2)
                                &&& effect is Nothing
                            },
                        }
                    },
                Screen::Login(_) => next == self && effect is Nothing,
            },
            Message::FocusNext => next == self && effect is FocusNext,
            Message::FocusPrev => next == self && effect is FocusPrev,
        }
    }

    /// Hands `message` to the screen on show and switches screens as that screen asks.
    pub fn update(&mut self, message: Message) -> (r: Effect)
        ensures
            old(self).transition(message, *final(self), r),
    {
        match message {
            Message::Login(message) => {
                if let Screen::Login(state) = &mut self.screen {
                    let ghost before = *state;
                    let ghost clusters_before = self.config.clusters@;
                    let ghost m = message;
                    let action = state.update(message, &mut self.config.clusters);
                    let ghost after = *state;
                    let ghost a = action;
                    assert(before.transition(m, clusters_before, after, self.config.clusters@, a));
                    match action {
                        login::Action::Login(auth, user) => {
                            let (state, listing) = connect::State::new(auth, user);
                            self.screen = Screen::Connect(state);
                            Effect::Dispatch(Message::Connect(listing))
                        },
                        login::Action::Run(next) => Effect::Dispatch(Message::Login(next)),
                        login::Action::SaveConfig => Effect::Nothing,
                        login::Action::Nothing => Effect::Nothing,
                    }
                } else {
                    Effect::Nothing
                }
            },
            Message::Connect(message) => {
                if let Screen::Connect(state) = &mut self.screen {
                    let ghost before = *state;
                    let ghost m = message;
                    let action = state.update(message, &mut self.config);
                    let ghost after = *state;
                    let ghost a = action;
                    assert(before.transition(m, after, a));
                    match action {
                        connect::Action::Logout => {
                            self.screen = Screen::Login(login::State::new(&self.config));
                            Effect::Nothing
                        },
                        connect::Action::Run(next) => Effect::Dispatch(Message::Connect(next)),
                        connect::Action::Nothing => Effect::Nothing,
                    }
                } else {
                    Effect::Nothing
                }
            },
            Message::FocusNext => Effect::FocusNext,
            Message::FocusPrev => Effect::FocusPrev,
        }
    }
}

} // verus!
