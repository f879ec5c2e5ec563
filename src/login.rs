use vstd::prelude::*;

use crate::config::{Cluster, Config, User};
use crate::proxmox::Auth;

pub mod password_input;
pub mod user_modal;

verus! {

/// The login screen: the chosen cluster and user, the password typed, and the
/// form for a new user when it is open.
#[derive(Debug)]
pub struct State {
    pub modal: Option<user_modal::State>,
    pub cluster: Option<Cluster>,
    pub user: Option<User>,
    pub password: String,
    pub secure_password: bool,
}

/// What the login screen reacts to.
#[derive(Clone, Debug)]
pub enum Message {
    SelectCluster(Cluster),
    SelectUser(User),
    ShowModal,
    Modal(user_modal::Message),
    Password(String),
    ShowPassword,
    HidePassword,
    SubmitPassword,
    SubmitApi,
    Login(Auth),
}

/// What the login screen asks of the application.
#[derive(Debug)]
pub enum Action {
    /// Leave the login screen with this session for this user.
    Login(Auth, User),
    /// Handle this message next.
    Run(Message),
    /// The clusters changed and should be stored.
    SaveConfig,
    Nothing,
}

/// The cluster that `config` names as its default, when that index is in range.
pub open spec fn default_cluster_of(config: Config) -> Option<Cluster> {
    match config.default_cluster {
        Some(i) => if i < config.clusters@.len() {
            Some(config.clusters@[i as int])
        } else {
            None
        },
        None => None,
    }
}

/// Whether some cluster in `clusters` is named `name`.
pub open spec fn has_cluster_named(clusters: Seq<Cluster>, name: Seq<char>) -> bool {
    exists|k: int| 0 <= k < clusters.len() && #[trigger] clusters[k].name@ == name
}

/// Whether `i` is the first cluster in `clusters` named `name`.
pub open spec fn is_first_named(clusters: Seq<Cluster>, name: Seq<char>, i: int) -> bool {
    &&& 0 <= i < clusters.len()
    &&& clusters[i].name@ == name
    &&& forall|k: int| 0 <= k < i ==> #[trigger] clusters[k].name@ != name
}

/// Whether `after` is `before` with `user` appended to its users.
pub open spec fn with_user_added(before: Cluster, after: Cluster, user: User) -> bool {
    &&& after.name == before.name
    &&& after.hosts == before.hosts
    &&& after.default_user == before.default_user
    &&& after.users@ == before.users@.push(user)
}

/// Whether `action` asks to handle a login with an empty session. No request reaches
/// the cluster: the session is a placeholder.
pub open spec fn is_blank_login(action: Action) -> bool {
    action matches Action::Run(Message::Login(auth)) && auth.is_blank()
}

fn find_cluster(clusters: &Vec<Cluster>, name: &String) -> (r: Option<usize>)
    ensures
        match r {
            Some(i) => is_first_named(clusters@, name@, i as int),
            None => !has_cluster_named(clusters@, name@),
        },
{
    let mut i: usize = 0;
    while i < clusters.len()
        invariant
            i <= clusters.len(),
            forall|k: int| 0 <= k < i ==> #[trigger] clusters@[k].name@ != name@,
        decreases clusters.len() - i,
    {
        if clusters[i].name == *name {
            return Some(i);
        }
        i += 1;
    }
    None
}

impl State {
    /// Whether this is the screen a user first sees for `config`.
    pub open spec fn is_initial(self, config: Config) -> bool {
        &&& self.modal is None
        &&& self.password@ == Seq::<char>::empty()
        &&& !self.secure_password
        &&& match default_cluster_of(config) {
            Some(c) => {
                &&& self.cluster is Some
                &&& self.cluster->Some_0@ == c@
                &&& self.cluster->Some_0.users@ == c.users@
                &&& self.user == if c.users@.len() > 0 {
                    Some(c.users@[0])
                } else {
                    None
                }
            },
            None => self.cluster is None && self.user is None,
        }
    }

    /// The screen a user first sees: the default cluster of `config` and its first user
    /// chosen, when there are such, with no password typed and no form open.
    pub fn new(config: &Config) -> (r: Self)
        ensures
            r.is_initial(*config),
    {
        let cluster = match config.default_cluster {
            Some(index) => if index < config.clusters.len() {
                Some(config.clusters[index].clone())
            } else {
                None
            },
            None => None,
        };
        let user = match &cluster {
            Some(c) => if c.users.len() > 0 {
                Some(c.users[0].clone())
            } else {
                None
            },
            None => None,
        };
        State { modal: None, cluster, user, password: String::new(), secure_password: false }
    }

    /// How `update` moves the screen from `self` to `next` on `message`, and the
    /// clusters of the configuration from `clusters` to `next_clusters`, answering `action`.
    pub open spec fn transition(
        self,
        message: Message,
        clusters: Seq<Cluster>,
        next: State,
        next_clusters: Seq<Cluster>,
        action: Action,
    ) -> bool {
        match message {
            Message::SelectCluster(c) => {
                &&& next_clusters == clusters
                &&& action == Action::Nothing
                &&& if self.cluster is None || self.cluster->Some_0@ != c@ {
                    next == State { cluster: Some(c), user: None, ..self }
                } else {
                    next == self
                }
            },
            Message::SelectUser(u) => {
                &&& next_clusters == clusters
                &&& action == Action::Nothing
                &&& if self.user is None || self.user->Some_0@ != u@ {
                    &&& next.password@ == Seq::<char>::empty()
                    &&& next == State { user: Some(u), password: next.password, ..self }
                } else {
                    next == self
                }
            },
            Message::ShowModal => {
                &&& next_clusters == clusters
                &&& action == Action::Nothing
                &&& next.modal is Some
                &&& next.modal->Some_0.is_fresh()
                &&& next == State { modal: next.modal, ..self }
            },
            Message::Modal(m) => match self.modal {
                None => next == self && next_clusters == clusters && action == Action::Nothing,
                Some(form) => match user_modal::State::outcome(m) {
                    user_modal::Action::Add => {
                        let u = form.next(m).user;
                        if self.cluster is Some && has_cluster_named(
                            clusters,
                            self.cluster->Some_0.name@,
                        ) {
                            &&& action == Action::SaveConfig
                            &&& next.cluster is Some
                            &&& with_user_added(self.cluster->Some_0, next.cluster->Some_0, u)
                            &&& next.password@ == Seq::<char>::empty()
                            &&& next == State {
                                modal: None,
                                cluster: next.cluster,
                                user: Some(u),
                                password: next.password,
                                ..self
                            }
                            &&& next_clusters.len() == clusters.len()
                            &&& forall|i: int|
                                is_first_named(clusters, self.cluster->Some_0.name@, i) ==> {
                                    &&& with_user_added(clusters[i], next_clusters[i], u)
                                    &&& forall|k: int|
                                        0 <= k < clusters.len() && k != i ==> next_clusters[k]
                                            == clusters[k]
                                }
                        } else {
                            &&& action == Action::Nothing
                            &&& next == State { modal: None, ..self }
                            &&& next_clusters == clusters
                        }
                    },
                    user_modal::Action::Close => {
                        &&& action == Action::Nothing
                        &&& next == State { modal: None, ..self }
                        &&& next_clusters == clusters
                    },
                    user_modal::Action::Nothing => {
                        &&& action == Action::Nothing
                        &&& next == State { modal: Some(form.next(m)), ..self }
                        &&& next_clusters == clusters
                    },
                },
            },
            Message::Password(p) => {
                &&& next_clusters == clusters
                &&& action == Action::Nothing
                &&& next == State { password: p, ..self }
            },
            Message::ShowPassword => {
                &&& next_clusters == clusters
                &&& action == Action::Nothing
                &&& next == State { secure_password: false, ..self }
            },
            Message::HidePassword => {
                &&& next_clusters == clusters
                &&& action == Action::Nothing
                &&& next == State { secure_password: true, ..self }
            },
            Message::SubmitPassword | Message::SubmitApi => {
                &&& next_clusters == clusters
                &&& is_blank_login(action)
                &&& next == self
            },
            Message::Login(auth) => {
                &&& next_clusters == clusters
                &&& match self.user {
                    Some(u) => next == State { user: None, ..self } && action == Action::Login(
                        auth,
                        u,
                    ),
                    None => next == self && action == Action::Nothing,
                }
            },
        }
    }

    /// Handles `message`, with `clusters` the clusters of the configuration. A user
    /// submitted in the form is added both to the chosen cluster and to the first cluster
    /// of the configuration with the same name, and becomes the chosen user.
    pub fn update(&mut self, message: Message, clusters: &mut Vec<Cluster>) -> (r: Action)
        ensures
            old(self).transition(message, old(clusters)@, *final(self), final(clusters)@, r),
    {
        match message {
            Message::SelectCluster(cluster) => {
                let differs = match &self.cluster {
                    Some(current) => *current != cluster,
                    None => true,
                };
                if differs {
                    self.cluster = Some(cluster);
                    self.user = None;
                }
            },
            Message::SelectUser(user) => {
                let differs = match &self.user {
                    Some(current) => *current != user,
                    None => true,
                };
                if differs {
                    self.select_user(user);
                }
            },
            Message::ShowModal => self.modal = Some(user_modal::State::default()),
            Message::Modal(message) => {
                let outcome = match &mut self.modal {
                    Some(form) => form.update(message),
                    None => return Action::Nothing,
                };
                match outcome {
                    user_modal::Action::Add => {
                        let user = match self.modal.take() {
                            Some(form) => form.user,
                            None => return Action::Nothing,
                        };
                        if let Some(current) = &mut self.cluster {
                            if let Some(index) = find_cluster(clusters, &current.name) {
                                current.users.push(user.clone());
                                clusters[index].users.push(user.clone());
                                self.select_user(user);
                                return Action::SaveConfig;
                            }
                        }
                    },
                    user_modal::Action::Close => self.modal = None,
                    user_modal::Action::Nothing => {},
                }
            },
            Message::Password(password) => self.password = password,
            Message::ShowPassword => self.secure_password = false,
            Message::HidePassword => self.secure_password = true,
            Message::SubmitPassword => {
                return Action::Run(
                    Message::Login(Auth { csrf: String::new(), ticket: String::new() }),
                );
            },
            Message::SubmitApi => {
                return Action::Run(
                    Message::Login(Auth { ticket: String::new(), csrf: String::new() }),
                );
            },
            Message::Login(auth) => {
                if let Some(user) = self.user.take() {
                    return Action::Login(auth, user);
                }
            },
        }
        Action::Nothing
    }

    fn select_user(&mut self, user: User)
        ensures
            final(self).password@ == Seq::<char>::empty(),
            *final(self) == (State { user: Some(user), password: final(self).password, ..*old(self) }),
    {
        self.user = Some(user);
        self.password = String::new();
    }
}

} // verus!
