use antechamber::config::{AuthMethod, Cluster, Host, IpAddress, User};
use antechamber::proxmox::GuestKind;

fn user(name: &str, auth_method: AuthMethod) -> User {
    User { name: name.to_owned(), auth_method }
}

fn cluster(name: &str, users: Vec<User>) -> Cluster {
    Cluster { name: name.to_owned(), hosts: vec![], default_user: None, users }
}

#[test]
fn guest_kind_labels() {
    assert_eq!(GuestKind::Qemu.to_string(), "Qemu");
    assert_eq!(GuestKind::Lxc.to_string(), "LXC");
}

#[test]
fn user_and_cluster_are_listed_by_name() {
    let u = user("alice@pve", AuthMethod::ApiToken("t".to_owned()));
    assert_eq!(u.to_string(), "alice@pve");
    let c = cluster("lab", vec![u]);
    assert_eq!(c.to_string(), "lab");
}

#[test]
fn default_user_is_blank_with_password() {
    let u = User::default();
    assert_eq!(u.name, "");
    assert_eq!(u.auth_method, AuthMethod::Password);
    assert_eq!(AuthMethod::default(), AuthMethod::Password);
}

#[test]
fn auth_methods_compare_by_kind_and_token() {
    assert_eq!(AuthMethod::Password, AuthMethod::Password);
    assert_eq!(AuthMethod::ApiToken("a".to_owned()), AuthMethod::ApiToken("a".to_owned()));
    assert_ne!(AuthMethod::ApiToken("a".to_owned()), AuthMethod::ApiToken("b".to_owned()));
    assert_ne!(AuthMethod::Password, AuthMethod::ApiToken(String::new()));
}

#[test]
fn users_compare_by_name_and_method() {
    assert_eq!(user("a", AuthMethod::Password), user("a", AuthMethod::Password));
    assert_ne!(user("a", AuthMethod::Password), user("b", AuthMethod::Password));
    assert_ne!(
        user("a", AuthMethod::Password),
        user("a", AuthMethod::ApiToken("a".to_owned()))
    );
}

#[test]
fn hosts_compare_by_address_or_name() {
    assert_eq!(Host::Ip(IpAddress::V4(0x7f00_0001)), Host::Ip(IpAddress::V4(0x7f00_0001)));
    assert_ne!(Host::Ip(IpAddress::V4(1)), Host::Ip(IpAddress::V6(1)));
    assert_eq!(Host::Dns("pve".to_owned()), Host::Dns("pve".to_owned()));
    assert_ne!(Host::Dns("pve".to_owned()), Host::Dns("pve2".to_owned()));
    assert_ne!(Host::Dns("pve".to_owned()), Host::Ip(IpAddress::V4(1)));
}

#[test]
fn clusters_compare_every_field() {
    let base = cluster("lab", vec![user("a", AuthMethod::Password)]);
    assert_eq!(base, base.clone());

    let mut other = base.clone();
    other.hosts.push(Host::Dns("node1".to_owned()));
    assert_ne!(base, other);

    let mut other = base.clone();
    other.default_user = Some(0);
    assert_ne!(base, other);

    let mut other = base.clone();
    other.users.push(user("b", AuthMethod::Password));
    assert_ne!(base, other);

    let mut other = base.clone();
    other.users[0].name = "z".to_owned();
    assert_ne!(base, other);

    let mut other = base.clone();
    other.name = "prod".to_owned();
    assert_ne!(base, other);
}

#[test]
fn clones_keep_every_field() {
    let mut c = cluster("lab", vec![user("a", AuthMethod::ApiToken("tok".to_owned()))]);
    c.hosts.push(Host::Ip(IpAddress::V6(42)));
    c.default_user = Some(0);
    let d = c.clone();
    assert_eq!(d.name, "lab");
    assert_eq!(d.hosts, vec![Host::Ip(IpAddress::V6(42))]);
    assert_eq!(d.default_user, Some(0));
    assert_eq!(d.users[0].auth_method, AuthMethod::ApiToken("tok".to_owned()));
}
