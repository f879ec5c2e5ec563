use vstd::prelude::*;

verus! {

/// A session on the cluster: its ticket and the token that guards writes against forgery.
#[derive(Clone, Debug)]
pub struct Auth {
    pub ticket: String,
    pub csrf: String,
}

impl Auth {
    /// A session whose ticket and token are both empty.
    pub open spec fn is_blank(self) -> bool {
        &&& self.ticket@ == Seq::<char>::empty()
        &&& self.csrf@ == Seq::<char>::empty()
    }
}

/// What a remote-display viewer needs to open a guest's console.
#[derive(Clone, Debug)]
pub struct SpiceConfig {
    pub host: String,
    pub password: String,
    pub proxy: String,
    pub tls_port: u16,
    pub conn_type: String,
}

impl SpiceConfig {
    /// Connection settings with every text empty and port zero.
    pub open spec fn is_blank(self) -> bool {
        &&& self.host@ == Seq::<char>::empty()
        &&& self.password@ == Seq::<char>::empty()
        &&& self.proxy@ == Seq::<char>::empty()
        &&& self.tls_port == 0
        &&& self.conn_type@ == Seq::<char>::empty()
    }
}

/// A virtual machine or container that a cluster node runs.
#[derive(Clone, Debug)]
pub struct Guest {
    pub name: String,
    pub vmid: u32,
    pub node: String,
    pub kind: GuestKind,
}

/// Which kind of guest a cluster node runs.
#[derive(Clone, Copy, Debug, PartialEq, Eq, Structural)]
pub enum GuestKind {
    Qemu,
    Lxc,
}

impl GuestKind {
    /// The label shown for this kind.
    pub open spec fn label(self) -> Seq<char> {
        match self {
            GuestKind::Qemu => "Qemu"@,
            GuestKind::Lxc => "LXC"@,
        }
    }

    /// The kind's label as an owned string.
    pub fn to_string(&self) -> (r: String)
        ensures
            r@ == self.label(),
    {
        match self {
            GuestKind::Qemu => "Qemu".to_owned(),
            GuestKind::Lxc => "LXC".to_owned(),
        }
    }
}

} // verus!
