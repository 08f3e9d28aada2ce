//! Who may talk to the NFS server: remote procedure call credentials and the
//! rule that decides on them.
use vstd::prelude::*;

verus! {

/// The program number of the port mapper.
pub const PORTMAP_PROGRAM: u32 = 100000;

/// The program number of NFS.
pub const NFS_PROGRAM: u32 = 100003;

/// Source ports below this one are open to privileged processes only.
pub const RESERVED_PORT_LIMIT: u16 = 1024;

/// How a caller identifies itself.
#[derive(Clone, Copy, PartialEq, Eq, Structural, Debug)]
pub enum AuthFlavor {
    Null,
    Unix,
    Short,
    Des,
}

/// The user and groups that a caller claims to act for.
#[derive(Clone, PartialEq, Eq, Debug)]
pub struct AuthUnix {
    pub uid: u32,
    pub gid: u32,
    pub gids: Vec<u32>,
}

impl AuthUnix {
    pub fn new(uid: u32, gid: u32, gids: Vec<u32>) -> (r: AuthUnix)
        ensures
            r == (AuthUnix { uid, gid, gids }),
    {
        AuthUnix { uid, gid, gids }
    }
}

/// Where a call comes from.
#[derive(Clone, Copy, PartialEq, Eq, Structural, Debug)]
pub struct ClientAddr {
    /// The address is one of this machine's own.
    pub loopback: bool,
    pub port: u16,
}

/// The octets of the address and the port of the socket address that a text
/// stands for, if it stands for one.
pub uninterp spec fn socket_addr_of(text: Seq<char>) -> Option<(Seq<u8>, u16)>;

/// What a parsed socket address holds.
pub open spec fn socket_addr_view(addr: Option<(Vec<u8>, u16)>) -> Option<(Seq<u8>, u16)> {
    match addr {
        Some((octets, port)) => Some((octets@, port)),
        None => None,
    }
}

/// `str::parse` into `core::net::SocketAddr`: the octets of the address and the
/// port. What a text is parsed into depends on the text alone. Which texts are
/// socket addresses, and of which address, is not said here.
#[verifier::external_body]
fn parse_socket_addr(text: &str) -> (r: Option<(Vec<u8>, u16)>)
    ensures
        socket_addr_view(r) == socket_addr_of(text@),
{
    match text.parse::<core::net::SocketAddr>() {
        Ok(core::net::SocketAddr::V4(addr)) => Some((addr.ip().octets().to_vec(), addr.port())),
        Ok(core::net::SocketAddr::V6(addr)) => Some((addr.ip().octets().to_vec(), addr.port())),
        Err(_) => None,
    }
}

/// The octets are those of an address of this machine's own: one that starts
/// with 127 in version four of the protocol, and `::1` in version six.
pub open spec fn is_loopback(octets: Seq<u8>) -> bool {
    ||| octets.len() == 4 && octets[0] == 127
    ||| octets.len() == 16 && octets[15] == 1 && forall|i: int|
        0 <= i < 15 ==> #[trigger] octets[i] == 0
}

/// Where a call comes from, by the octets of its address and its port.
pub open spec fn spec_client_addr(addr: Option<(Seq<u8>, u16)>) -> Option<ClientAddr> {
    match addr {
        Some((octets, port)) => Some(ClientAddr { loopback: is_loopback(octets), port }),
        None => None,
    }
}

impl ClientAddr {
    /// Where a call comes from, by the octets of its address and its port.
    pub fn from_octets(octets: &Vec<u8>, port: u16) -> (r: ClientAddr)
        ensures
            r == (ClientAddr { loopback: is_loopback(octets@), port }),
    {
        let mut loopback: bool = false;
        if octets.len() == 4 {
            loopback = octets[0] == 127;
        } else if octets.len() == 16 && octets[15] == 1 {
            let mut i: usize = 0;
            while i < 15 && octets[i] == 0
                invariant
                    i <= 15,
                    octets@.len() == 16,
                    forall|j: int| 0 <= j < i ==> #[trigger] octets@[j] == 0,
                decreases 15 - i,
            {
                i = i + 1;
            }
            loopback = i == 15;
        }
        ClientAddr { loopback, port }
    }

    /// Where a call comes from, by the text of its socket address; `None` where
    /// the text is none.
    pub fn parse(text: &str) -> (r: Option<ClientAddr>)
        ensures
            r == spec_client_addr(socket_addr_of(text@)),
    {
        match parse_socket_addr(text) {
            Some((octets, port)) => Some(ClientAddr::from_octets(&octets, port)),
            None => None,
        }
    }
}

/// What is known of a call when it is to be allowed or refused.
#[derive(Clone, PartialEq, Eq, Debug)]
pub struct RpcAuthRequest {
    /// The socket address of the peer.
    pub client_addr: String,
    pub auth_flavor: AuthFlavor,
    pub auth: AuthUnix,
    pub program: u32,
    pub procedure: u32,
}

/// A rule that allows or refuses calls.
pub trait RpcAuthorizer {
    /// What the rule says of a call.
    spec fn allows(&self, request: RpcAuthRequest) -> bool;

    fn authorize(&self, request: &RpcAuthRequest) -> (r: bool)
        ensures
            r == self.allows(*request),
    ;
}

/// Allows the port mapper to everyone on this machine, and everything else to
/// the owner of the mount and to root, from a reserved port of this machine.
#[derive(Clone, Copy, PartialEq, Eq, Structural, Debug)]
pub struct NfsLocalAuthorizer {
    pub owner_uid: u32,
}

/// Where the call comes from.
pub open spec fn caller(request: RpcAuthRequest) -> Option<ClientAddr> {
    spec_client_addr(socket_addr_of(request.client_addr@))
}

/// The call comes from this machine.
pub open spec fn is_local(addr: Option<ClientAddr>) -> bool {
    addr matches Some(a) && a.loopback
}

/// The call claims to act for root or for `owner_uid`, and a privileged
/// process of this machine vouches for the claim.
pub open spec fn is_vouched_owner(
    addr: Option<ClientAddr>,
    auth_flavor: AuthFlavor,
    uid: u32,
    owner_uid: u32,
) -> bool {
    &&& auth_flavor == AuthFlavor::Unix
    &&& uid == 0 || uid == owner_uid
    &&& addr matches Some(a) && a.port < RESERVED_PORT_LIMIT
}

impl NfsLocalAuthorizer {
    pub fn new(owner_uid: u32) -> (r: NfsLocalAuthorizer)
        ensures
            r.owner_uid == owner_uid,
    {
        NfsLocalAuthorizer { owner_uid }
    }

    /// The rule, of a call from `addr`.
    pub open spec fn spec_allows_from(
        self,
        addr: Option<ClientAddr>,
        auth_flavor: AuthFlavor,
        uid: u32,
        program: u32,
    ) -> bool {
        is_local(addr) && (program == PORTMAP_PROGRAM || is_vouched_owner(
            addr,
            auth_flavor,
            uid,
            self.owner_uid,
        ))
    }

    /// The rule, of a call from `addr`; `None` where the peer has no socket
    /// address.
    pub fn allows_from(
        &self,
        addr: Option<ClientAddr>,
        auth_flavor: AuthFlavor,
        uid: u32,
        program: u32,
    ) -> (r: bool)
        ensures
            r == self.spec_allows_from(addr, auth_flavor, uid, program),
    {
        match addr {
            None => false,
            Some(addr) => {
                if !addr.loopback {
                    return false;
                }
                if program == PORTMAP_PROGRAM {
                    return true;
                }
                if auth_flavor != AuthFlavor::Unix {
                    return false;
                }
                (uid == 0 || uid == self.owner_uid) && addr.port < RESERVED_PORT_LIMIT
            },
        }
    }

    pub fn is_allowed(&self, request: &RpcAuthRequest) -> (r: bool)
        ensures
            r == self.allows(*request),
    {
        let addr = ClientAddr::parse(request.client_addr.as_str());
        self.allows_from(addr, request.auth_flavor, request.auth.uid, request.program)
    }
}

impl RpcAuthorizer for NfsLocalAuthorizer {
    open spec fn allows(&self, request: RpcAuthRequest) -> bool {
        self.spec_allows_from(
            caller(request),
            request.auth_flavor,
            request.auth.uid,
            request.program,
        )
    }

    fn authorize(&self, request: &RpcAuthRequest) -> (r: bool) {
        self.is_allowed(request)
    }
}

/// What a connection knows of its peer, and the rule that it is held to.
pub struct RpcContext<A: RpcAuthorizer> {
    pub local_port: u16,
    /// The socket address of the peer.
    pub client_addr: String,
    pub auth_flavor: AuthFlavor,
    pub auth: AuthUnix,
    pub authorizer: Option<A>,
}

/// A copy of `auth`.
fn clone_auth(auth: &AuthUnix) -> (r: AuthUnix)
    ensures
        r.uid == auth.uid,
        r.gid == auth.gid,
        r.gids@ == auth.gids@,
{
    let mut gids: Vec<u32> = Vec::new();
    let mut i: usize = 0;
    while i < auth.gids.len()
        invariant
            i <= auth.gids@.len(),
            gids@ == auth.gids@.take(i as int),
        decreases auth.gids@.len() - i,
    {
        gids.push(auth.gids[i]);
        i = i + 1;
        assert(auth.gids@.take(i as int) =~= auth.gids@.take(i - 1).push(auth.gids@[i - 1]));
    }
    assert(auth.gids@.take(i as int) =~= auth.gids@);
    AuthUnix { uid: auth.uid, gid: auth.gid, gids }
}

impl<A: RpcAuthorizer> RpcContext<A> {
    /// The call of `procedure` of `program` over this connection.
    pub open spec fn is_request(self, request: RpcAuthRequest, program: u32, procedure: u32) -> bool {
        &&& request.client_addr@ == self.client_addr@
        &&& request.auth_flavor == self.auth_flavor
        &&& request.auth.uid == self.auth.uid
        &&& request.auth.gid == self.auth.gid
        &&& request.auth.gids@ == self.auth.gids@
        &&& request.program == program
        &&& request.procedure == procedure
    }

    /// Tells whether the peer may call `procedure` of `program`: always where
    /// there is no rule, and else as the rule says.
    pub fn is_authorized(&self, program: u32, procedure: u32) -> (r: bool)
        ensures
            self.authorizer is None ==> r,
            self.authorizer matches Some(rule) ==> exists|request: RpcAuthRequest|
                self.is_request(request, program, procedure) && r == #[trigger] rule.allows(
                    request,
                ),
    {
        match &self.authorizer {
            None => true,
            Some(authorizer) => {
                let request = RpcAuthRequest {
                    client_addr: self.client_addr.clone(),
                    auth_flavor: self.auth_flavor,
                    auth: clone_auth(&self.auth),
                    program,
                    procedure,
                };
                assert(self.is_request(request, program, procedure));
                authorizer.authorize(&request)
            },
        }
    }
}

/// Whatever else it carries, a call from another machine, or from a peer without
/// a socket address, is refused.
pub proof fn law_remote_calls_are_refused(rule: NfsLocalAuthorizer, request: RpcAuthRequest)
    ensures
        !is_local(caller(request)) ==> !rule.allows(request),
{
}

/// Other than for the port mapper, nobody is served who is neither root nor
/// the owner, or whose claim no privileged process vouches for.
pub proof fn law_only_owner_and_root_are_served(rule: NfsLocalAuthorizer, request: RpcAuthRequest)
    requires
        request.program != PORTMAP_PROGRAM,
    ensures
        rule.allows(request) <==> is_local(caller(request)) && is_vouched_owner(
            caller(request),
            request.auth_flavor,
            request.auth.uid,
            rule.owner_uid,
        ),
{
}

} // verus!
