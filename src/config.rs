use vstd::prelude::*;

verus! {

/// An IP address, held as the integer of its octets in network order.
#[derive(Clone, Copy, Debug, PartialEq, Eq, Structural)]
pub enum IpAddress {
    V4(u32),
    V6(u128),
}

/// How a user proves who they are to the cluster.
#[derive(Debug, Eq)]
pub enum AuthMethod {
    /// A password typed in at login.
    Password,
    /// An API token kept in the configuration.
    ApiToken(String),
}

/// The mathematical value of an `AuthMethod`.
pub enum AuthMethodView {
    Password,
    ApiToken(Seq<char>),
}

impl View for AuthMethod {
    type V = AuthMethodView;

    open spec fn view(&self) -> AuthMethodView {
        match self {
            AuthMethod::Password => AuthMethodView::Password,
            AuthMethod::ApiToken(t) => AuthMethodView::ApiToken(t@),
        }
    }
}

impl Clone for AuthMethod {
    fn clone(&self) -> (r: Self)
        ensures
            r == *self,
    {
        match self {
            AuthMethod::Password => AuthMethod::Password,
            AuthMethod::ApiToken(t) => AuthMethod::ApiToken(t.clone()),
        }
    }
}

impl PartialEq for AuthMethod {
    fn eq(&self, other: &AuthMethod) -> (r: bool)
        ensures
            r == (self@ == other@),
    {
        match (self, other) {
            (AuthMethod::Password, AuthMethod::Password) => true,
            (AuthMethod::ApiToken(a), AuthMethod::ApiToken(b)) => *a == *b,
            _ => false,
        }
    }
}

impl vstd::std_specs::cmp::PartialEqSpecImpl for AuthMethod {
    open spec fn obeys_eq_spec() -> bool {
        true
    }

    open spec fn eq_spec(&self, other: &AuthMethod) -> bool {
        self@ == other@
    }
}

impl Default for AuthMethod {
    fn default() -> (r: Self)
        ensures
            r == AuthMethod::Password,
    {
        AuthMethod::Password
    }
}

/// A login known for a cluster.
#[derive(Debug, Eq)]
pub struct User {
    pub name: String,
    pub auth_method: AuthMethod,
}

/// The mathematical value of a `User`.
pub struct UserView {
    pub name: Seq<char>,
    pub auth_method: AuthMethodView,
}

impl View for User {
    type V = UserView;

    open spec fn view(&self) -> UserView {
        UserView { name: self.name@, auth_method: self.auth_method@ }
    }
}

impl User {
    /// A user with an empty name who logs in by password.
    pub open spec fn is_blank(self) -> bool {
        &&& self.name@ == Seq::<char>::empty()
        &&& self.auth_method == AuthMethod::Password
    }

    /// The text by which the user is listed.
    pub fn to_string(&self) -> (r: String)
        ensures
            r@ == self.name@,
    {
        self.name.clone()
    }
}

impl Clone for User {
    fn clone(&self) -> (r: Self)
        ensures
            r == *self,
    {
        User { name: self.name.clone(), auth_method: self.auth_method.clone() }
    }
}

impl PartialEq for User {
    fn eq(&self, other: &User) -> (r: bool)
        ensures
            r == (self@ == other@),
    {
        self.name == other.name && self.auth_method == other.auth_method
    }
}

impl vstd::std_specs::cmp::PartialEqSpecImpl for User {
    open spec fn obeys_eq_spec() -> bool {
        true
    }

    open spec fn eq_spec(&self, other: &User) -> bool {
        self@ == other@
    }
}

impl Default for User {
    fn default() -> (r: Self)
        ensures
            r.is_blank(),
    {
        User { name: String::new(), auth_method: AuthMethod::Password }
    }
}

/// A way to reach one node of a cluster.
#[derive(Debug, Eq)]
pub enum Host {
    Ip(IpAddress),
    Dns(String),
}

/// The mathematical value of a `Host`.
pub enum HostView {
    Ip(IpAddress),
    Dns(Seq<char>),
}

impl View for Host {
    type V = HostView;

    open spec fn view(&self) -> HostView {
        match self {
            Host::Ip(a) => HostView::Ip(*a),
            Host::Dns(n) => HostView::Dns(n@),
        }
    }
}

impl Clone for Host {
    fn clone(&self) -> (r: Self)
        ensures
            r == *self,
    {
        match self {
            Host::Ip(a) => Host::Ip(*a),
            Host::Dns(n) => Host::Dns(n.clone()),
        }
    }
}

impl PartialEq for Host {
    fn eq(&self, other: &Host) -> (r: bool)
        ensures
            r == (self@ == other@),
    {
        match (self, other) {
            (Host::Ip(a), Host::Ip(b)) => *a == *b,
            (Host::Dns(a), Host::Dns(b)) => *a == *b,
            _ => false,
        }
    }
}

impl vstd::std_specs::cmp::PartialEqSpecImpl for Host {
    open spec fn obeys_eq_spec() -> bool {
        true
    }

    open spec fn eq_spec(&self, other: &Host) -> bool {
        self@ == other@
    }
}

/// A named group of nodes and the users known for it.
#[derive(Debug, Eq)]
pub struct Cluster {
    pub name: String,
    pub hosts: Vec<Host>,
    pub default_user: Option<usize>,
    pub users: Vec<User>,
}

/// The mathematical value of a `Cluster`.
pub struct ClusterView {
    pub name: Seq<char>,
    pub hosts: Seq<HostView>,
    pub default_user: Option<usize>,
    pub users: Seq<UserView>,
}

/// The values of a sequence of hosts.
pub open spec fn host_views(hosts: Seq<Host>) -> Seq<HostView> {
    hosts.map_values(|h: Host| h@)
}

/// The values of a sequence of users.
pub open spec fn user_views(users: Seq<User>) -> Seq<UserView> {
    users.map_values(|u: User| u@)
}

impl View for Cluster {
    type V = ClusterView;

    open spec fn view(&self) -> ClusterView {
        ClusterView {
            name: self.name@,
            hosts: host_views(self.hosts@),
            default_user: self.default_user,
            users: user_views(self.users@),
        }
    }
}

impl Cluster {
    /// The text by which the cluster is listed.
    pub fn to_string(&self) -> (r: String)
        ensures
            r@ == self.name@,
    {
        self.name.clone()
    }
}

fn hosts_equal(a: &Vec<Host>, b: &Vec<Host>) -> (r: bool)
    ensures
        r == (host_views(a@) == host_views(b@)),
{
    if a.len() != b.len() {
        assert(host_views(a@).len() != host_views(b@).len());
        return false;
    }
    let mut i: usize = 0;
    while i < a.len()
        invariant
            a.len() == b.len(),
            i <= a.len(),
            forall|j: int| 0 <= j < i ==> a@[j]@ == b@[j]@,
        decreases a.len() - i,
    {
        if a[i] != b[i] {
            assert(host_views(a@)[i as int] != host_views(b@)[i as int]);
            return false;
        }
        i += 1;
    }
    assert(host_views(a@) =~= host_views(b@));
    true
}

fn users_equal(a: &Vec<User>, b: &Vec<User>) -> (r: bool)
    ensures
        r == (user_views(a@) == user_views(b@)),
{
    if a.len() != b.len() {
        assert(user_views(a@).len() != user_views(b@).len());
        return false;
    }
    let mut i: usize = 0;
    while i < a.len()
        invariant
            a.len() == b.len(),
            i <= a.len(),
            forall|j: int| 0 <= j < i ==> a@[j]@ == b@[j]@,
        decreases a.len() - i,
    {
        if a[i] != b[i] {
            assert(user_views(a@)[i as int] != user_views(b@)[i as int]);
            return false;
        }
        i += 1;
    }
    assert(user_views(a@) =~= user_views(b@));
    true
}

impl Clone for Cluster {
    fn clone(&self) -> (r: Self)
        ensures
            r@ == self@,
            r.name == self.name,
            r.hosts@ == self.hosts@,
            r.default_user == self.default_user,
            r.users@ == self.users@,
    {
        let r = Cluster {
            name: self.name.clone(),
            hosts: self.hosts.clone(),
            default_user: self.default_user,
            users: self.users.clone(),
        };
        assert(r.hosts@ =~= self.hosts@);
        assert(r.users@ =~= self.users@);
        r
    }
}

impl PartialEq for Cluster {
    fn eq(&self, other: &Cluster) -> (r: bool)
        ensures
            r == (self@ == other@),
    {
        let same_default = match (self.default_user, other.default_user) {
            (Some(a), Some(b)) => a == b,
            (None, None) => true,
            _ => false,
        };
        self.name == other.name && hosts_equal(&self.hosts, &other.hosts) && same_default
            && users_equal(&self.users, &other.users)
    }
}

impl vstd::std_specs::cmp::PartialEqSpecImpl for Cluster {
    open spec fn obeys_eq_spec() -> bool {
        true
    }

    open spec fn eq_spec(&self, other: &Cluster) -> bool {
        self@ == other@
    }
}

/// The user's local preferences: the clusters they know and how to open a viewer.
#[derive(Clone, Debug)]
pub struct Config {
    pub default_cluster: Option<usize>,
    pub clusters: Vec<Cluster>,
    pub viewer_args: Vec<String>,
}

} // verus!
