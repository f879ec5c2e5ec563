use vstd::prelude::*;

use crate::config::{Config, User};
use crate::proxmox::{Auth, Guest, GuestKind, SpiceConfig};

pub mod settings_modal;

verus! {

/// The guest-selection screen of a logged-in user.
#[derive(Debug)]
pub struct State {
    pub auth: Auth,
    pub guests: Option<Vec<Guest>>,
    pub user: User,
    pub show_modal: bool,
}

/// What the guest-selection screen reacts to.
#[derive(Clone, Debug)]
pub enum Message {
    Auth(Auth),
    GetGuests(Vec<Guest>),
    SpiceConfig(SpiceConfig),
    ConnectHost(u32),
    Logout,
    Settings,
    Modal(settings_modal::Message),
}

/// What the guest-selection screen asks of the application.
#[derive(Debug)]
pub enum Action {
    Logout,
    /// Handle this message next.
    Run(Message),
    Nothing,
}

/// The number of guests listed for a new session.
pub const GUEST_COUNT: u32 = 6;

/// The id of the first guest listed for a new session.
pub const FIRST_VMID: u32 = 100;

/// The decimal digits of `n`, most significant first, with no sign or padding.
pub open spec fn decimal(n: nat) -> Seq<char>
    decreases n,
{
    let digit = seq!['0', '1', '2', '3', '4', '5', '6', '7', '8', '9'][(n % 10) as int];
    if n < 10 {
        seq![digit]
    } else {
        decimal(n / 10).push(digit)
    }
}

/// Relies on std's `Display` for `u32`, through `ToString`: it writes the number in
/// decimal digits, with no sign or padding.
#[verifier::external_body]
fn decimal_string(n: u32) -> (r: String)
    ensures
        r@ == decimal(n as nat),
{
    n.to_string()
}

/// Whether `guests` is the list that a new session shows: guests named `Guest0`,
/// `Guest1`, ..., with ids counted up from the first id, all Qemu machines on node `N1`.
pub open spec fn is_sample_listing(guests: Seq<Guest>) -> bool {
    &&& guests.len() == GUEST_COUNT
    &&& forall|i: int|
        0 <= i < guests.len() ==> {
            &&& (#[trigger] guests[i]).name@ == "Guest"@ + decimal(i as nat)
            &&& guests[i].vmid == FIRST_VMID + i
            &&& guests[i].node@ == "N1"@
            &&& guests[i].kind == GuestKind::Qemu
        }
}

fn sample_guests() -> (r: Vec<Guest>)
    ensures
        is_sample_listing(r@),
{
    let mut guests: Vec<Guest> = Vec::new();
    let mut i: u32 = 0;
    while i < GUEST_COUNT
        invariant
            i <= GUEST_COUNT,
            guests@.len() == i,
            forall|k: int|
                0 <= k < i ==> {
                    &&& (#[trigger] guests@[k]).name@ == "Guest"@ + decimal(k as nat)
                    &&& guests@[k].vmid == FIRST_VMID + k
                    &&& guests@[k].node@ == "N1"@
                    &&& guests@[k].kind == GuestKind::Qemu
                },
        decreases GUEST_COUNT - i,
    {
        let digits = decimal_string(i);
        let name = "Guest".to_owned().concat(digits.as_str());
        guests.push(
            Guest { name, vmid: FIRST_VMID + i, node: "N1".to_owned(), kind: GuestKind::Qemu },
        );
        i += 1;
    }
    guests
}

impl State {
    /// The screen for a new session of `user`, with no guests listed yet, and the message
    /// that lists them. The cluster API is not asked: the listing is a fixed sample.
    pub fn new(auth: Auth, user: User) -> (r: (Self, Message))
        ensures
            r.0 == (State { auth, guests: None, user, show_modal: false }),
            r.1 matches Message::GetGuests(g) && is_sample_listing(g@),
    {
        (State { auth, guests: None, user, show_modal: false }, Message::GetGuests(sample_guests()))
    }

    /// How `update` moves the screen from `self` to `next` on `message`, answering `action`.
    pub open spec fn transition(self, message: Message, next: State, action: Action) -> bool {
        match message {
            Message::Auth(auth) => next == State { auth, ..self } && action is Nothing,
            Message::GetGuests(guests) => next == State { guests: Some(guests), ..self }
                && action is Nothing,
            Message::SpiceConfig(_) => next == self && action is Nothing,
            Message::ConnectHost(_) => {
                &&& next == self
                &&& action matches Action::Run(Message::SpiceConfig(c)) && c.is_blank()
            },
            Message::Logout => next == self && action is Logout,
            Message::Settings => next == State { show_modal: true, ..self } && action is Nothing,
            Message::Modal(_) => next == State { show_modal: false, ..self } && action is Nothing,
        }
    }

    /// Handles `message`. Asking to connect to a guest yields viewer settings that are
    /// blank, and viewer settings are not acted on: no viewer is started. The
    /// configuration is left as it was.
    pub fn update(&mut self, message: Message, config: &mut Config) -> (r: Action)
        ensures
            old(self).transition(message, *final(self), r),
            *final(config) == *old(config),
    {
        match message {
            Message::Auth(auth) => self.auth = auth,
            Message::GetGuests(guests) => self.guests = Some(guests),
            Message::SpiceConfig(_spice_config) => {},
            Message::ConnectHost(_vmid) => {
                return Action::Run(
                    Message::SpiceConfig(
                        SpiceConfig {
                            host: String::new(),
                            password: String::new(),
                            proxy: String::new(),
                            tls_port: 0,
                            conn_type: String::new(),
                        },
                    ),
                );
            },
            Message::Logout => return Action::Logout,
            Message::Settings => self.show_modal = true,
            Message::Modal(message) => {
                if self.show_modal {
                    match settings_modal::update(&mut self.user, message) {
                        settings_modal::Action::Close => self.show_modal = false,
                    }
                }
            },
        }
        Action::Nothing
    }
}

} // verus!
