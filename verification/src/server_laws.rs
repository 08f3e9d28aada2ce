//! What the server promises of the callers that it serves and of the handles
//! that it holds open for them.
use crate::handle_pool::PoolState;
use crate::nfs_ops::NFSAdapter;
use crate::rpc;
use crate::rpc::{AuthFlavor, ClientAddr, NfsLocalAuthorizer, RpcAuthRequest, RpcAuthorizer, RpcContext};
use vstd::prelude::*;

verus! {

broadcast use vstd::seq_lib::group_seq_properties;

// ── Who is served ───────────────────────────────────────────────────────

/// Of the addresses of four octets those that begin with 127 belong to this
/// machine, and no others.
pub proof fn law_loopback_of_four_octets(a: u8, b: u8, c: u8, d: u8)
    ensures
        rpc::is_loopback(seq![a, b, c, d]) <==> a == 127,
{
}

/// Of the addresses of sixteen octets one alone belongs to this machine: the
/// one that is all zeros but for a one at its end.
pub proof fn law_loopback_of_sixteen_octets(octets: Seq<u8>, other: Seq<u8>)
    requires
        octets.len() == 16,
        other.len() == 16,
    ensures
        octets == Seq::new(15, |i: int| 0u8).push(1) ==> rpc::is_loopback(octets),
        rpc::is_loopback(octets) && rpc::is_loopback(other) ==> octets == other,
{
    if rpc::is_loopback(octets) && rpc::is_loopback(other) {
        assert(octets =~= other);
    }
}

/// An address of any other length belongs to another machine.
pub proof fn law_no_other_address_is_loopback(octets: Seq<u8>)
    requires
        octets.len() != 4,
        octets.len() != 16,
    ensures
        !rpc::is_loopback(octets),
{
}

/// A caller is known by the address and the port that its peer has; without
/// them it is not known.
pub proof fn law_callers_are_known_by_their_address(octets: Seq<u8>, port: u16)
    ensures
        rpc::spec_client_addr(None) is None,
        rpc::spec_client_addr(Some((octets, port))) == Some(
            ClientAddr { loopback: rpc::is_loopback(octets), port },
        ),
{
}

/// A caller on another machine, or with no address, gets nothing.
pub proof fn law_strangers_get_nothing(
    rule: NfsLocalAuthorizer,
    port: u16,
    flavor: AuthFlavor,
    uid: u32,
    program: u32,
)
    ensures
        !rule.spec_allows_from(None, flavor, uid, program),
        !rule.spec_allows_from(
            Some(ClientAddr { loopback: false, port }),
            flavor,
            uid,
            program,
        ),
{
}

/// The port mapper, which is program 100000, answers everyone on this machine.
pub proof fn law_the_port_mapper_answers_everyone_here(
    rule: NfsLocalAuthorizer,
    port: u16,
    flavor: AuthFlavor,
    uid: u32,
)
    ensures
        rule.spec_allows_from(Some(ClientAddr { loopback: true, port }), flavor, uid, 100000),
{
}

/// Every other program serves those on this machine who say who they are, are
/// root or the owner, and call from a port below 1024; and nobody else.
pub proof fn law_the_rest_serves_the_owner_and_root(
    rule: NfsLocalAuthorizer,
    port: u16,
    flavor: AuthFlavor,
    uid: u32,
    program: u32,
)
    requires
        program != 100000,
    ensures
        rule.spec_allows_from(Some(ClientAddr { loopback: true, port }), flavor, uid, program)
            <==> flavor is Unix && (uid == 0 || uid == rule.owner_uid) && port <= 1023,
{
}

/// Two calls that differ in their groups, their procedure or, but for the port
/// mapper, their program are answered alike.
pub proof fn law_answers_depend_on_the_caller(
    rule: NfsLocalAuthorizer,
    one: RpcAuthRequest,
    other: RpcAuthRequest,
)
    requires
        one.client_addr@ == other.client_addr@,
        one.auth_flavor == other.auth_flavor,
        one.auth.uid == other.auth.uid,
        (one.program == 100000) == (other.program == 100000),
    ensures
        rule.allows(one) == rule.allows(other),
{
}

/// A call is judged by the address, the identity and the program that it
/// carries.
pub proof fn law_calls_are_judged_by_what_they_carry(
    rule: NfsLocalAuthorizer,
    request: RpcAuthRequest,
    octets: Seq<u8>,
    port: u16,
)
    requires
        rpc::socket_addr_of(request.client_addr@) == Some((octets, port)),
    ensures
        rule.allows(request) <==> rpc::is_loopback(octets) && (request.program == 100000 || (
        request.auth_flavor is Unix && (request.auth.uid == 0 || request.auth.uid == rule.owner_uid)
            && port <= 1023)),
{
}

/// A call from a peer whose address is no socket address is refused.
pub proof fn law_calls_from_nowhere_are_refused(rule: NfsLocalAuthorizer, request: RpcAuthRequest)
    requires
        rpc::socket_addr_of(request.client_addr@) is None,
    ensures
        !rule.allows(request),
{
}

// ── Handles held open ───────────────────────────────────────────────────

/// `a` was used before `b`.
pub open spec fn older(order: Seq<u64>, a: u64, b: u64) -> bool {
    exists|i: int, j: int|
        0 <= i < j < order.len() && #[trigger] order[i] == a && #[trigger] order[j] == b
}

/// Nothing is pooled to begin with.
pub proof fn law_pools_begin_empty(ino: u64)
    ensures
        PoolState::empty().order.len() == 0,
        PoolState::empty().handle(ino) is None,
        PoolState::empty().pins(ino) == 0,
{
}

/// Taking a file out takes out that file and leaves the others as they were.
pub proof fn law_removal_takes_one(p: PoolState, ino: u64, other: u64)
    requires
        p.wf(),
        other != ino,
    ensures
        p.remove(ino).handle(ino) is None,
        !p.remove(ino).order.contains(ino),
        p.remove(ino).handle(other) == p.handle(other),
        p.remove(ino).pins(other) == p.pins(other),
        p.remove(ino).order.contains(other) == p.order.contains(other),
        p.remove(ino).order.len() + (if p.handle(ino) is Some {
            1int
        } else {
            0int
        }) == p.order.len(),
{
    crate::handle_pool::lemma_without(p.order, ino);
    assert(p.order.contains(ino) <==> p.entries.contains_key(ino));
}

/// A pool with fewer than 64 other handles lets none of them go.
pub proof fn law_there_is_room_for_64(p: PoolState, ino: u64, file_handle: u64, other: u64)
    requires
        p.wf(),
        p.remove(ino).order.len() < 64,
        other != ino,
    ensures
        p.insert_evicts(ino).len() == 0,
        p.insert(ino, file_handle).handle(other) == p.handle(other),
        p.insert(ino, file_handle).pins(other) == p.pins(other),
        p.insert(ino, file_handle).order.len() == p.remove(ino).order.len() + 1,
{
}

/// A pool that is full and has no handle in use lets exactly its oldest go.
pub proof fn law_the_oldest_makes_room(p: PoolState, ino: u64, file_handle: u64)
    requires
        p.wf(),
        p.order.len() == 64,
        p.handle(ino) is None,
        p.pins(p.order[0]) == 0,
    ensures
        p.insert_evicts(ino) == seq![(p.order[0], p.entries[p.order[0]].file_handle)],
        p.insert(ino, file_handle).order == p.order.skip(1).push(ino),
        p.insert(ino, file_handle).handle(ino) == Some(file_handle),
        p.insert(ino, file_handle).pins(ino) == 0,
{
    assert(!p.order.contains(ino)) by {
        assert(p.order.contains(ino) <==> p.entries.contains_key(ino));
    }
    assert(p.entries.contains_key(p.order[0])) by {
        assert(p.order.contains(p.order[0]));
    }
    assert(p.remove(ino).order =~= p.order);
    assert(p.remove(ino).entries =~= p.entries);
    assert(p.remove(ino) == p);
    let q = p.drop_oldest();
    assert(q.order.len() == 63);
    assert(!q.must_evict());
    assert(q.evictions() =~= Seq::<(u64, u64)>::empty());
    assert(q.shrunk() == q);
    assert(p.evictions() =~= seq![(p.order[0], p.entries[p.order[0]].file_handle)]);
}

/// A pool whose oldest handle is in use lets none go, however full it is.
pub proof fn law_a_used_oldest_holds_the_pool(p: PoolState, ino: u64, file_handle: u64, other: u64)
    requires
        p.wf(),
        p.order.len() > 0,
        p.order[0] != ino,
        p.pins(p.order[0]) > 0,
        other != ino,
    ensures
        p.insert_evicts(ino).len() == 0,
        p.insert(ino, file_handle).handle(other) == p.handle(other),
{
    let r = p.remove(ino);
    assert(r.order[0] == p.order[0]);
    assert(r.entries[r.order[0]].pin_count > 0);
}

/// A use makes its file the last to go and leaves the others in their order.
pub proof fn law_uses_make_young(p: PoolState, ino: u64, a: u64, b: u64)
    requires
        p.wf(),
        p.handle(ino) is Some,
        a != ino,
        b != ino,
    ensures
        p.acquire(ino).order.len() == p.order.len(),
        p.acquire(ino).order.last() == ino,
        older(p.order, a, b) ==> older(p.acquire(ino).order, a, b),
        older(p.order, a, b) ==> older(p.remove(ino).order, a, b),
{
    assert(p.order.contains(ino));
    let at = p.order.index_of(ino);
    let w = p.remove(ino).order;
    let q = p.acquire(ino).order;
    assert(q =~= w.push(ino));
    if older(p.order, a, b) {
        let (i, j) = choose|i: int, j: int|
            0 <= i < j < p.order.len() && #[trigger] p.order[i] == a && #[trigger] p.order[j] == b;
        let k = if i < at {
            i
        } else {
            i - 1
        };
        let l = if j < at {
            j
        } else {
            j - 1
        };
        assert(w[k] == a && w[l] == b);
        assert(q[k] == a && q[l] == b);
    }
}

/// A use that is only counted leaves the order, the handles and the counts of
/// other files as they were.
pub proof fn law_uses_are_counted(p: PoolState, ino: u64, other: u64)
    requires
        p.wf(),
        p.can_pin(ino),
        p.handle(ino) is Some,
        other != ino,
    ensures
        p.pin(ino).order == p.order,
        p.pin(ino).pins(ino) == p.pins(ino) + 1,
        p.pin(ino).handle(ino) == p.handle(ino),
        p.pin(ino).handle(other) == p.handle(other),
        p.pin(ino).pins(other) == p.pins(other),
        p.unpin(ino).order == p.order,
        p.unpin(ino).pins(ino) == if p.pins(ino) == 0 {
            0
        } else {
            p.pins(ino) - 1
        },
        p.unpin(ino).handle(ino) == p.handle(ino),
        p.unpin(ino).handle(other) == p.handle(other),
        p.unpin(ino).pins(other) == p.pins(other),
{
}

/// A file that is not pooled is neither counted nor pooled by being used.
pub proof fn law_what_is_not_pooled_is_not_counted(p: PoolState, ino: u64)
    requires
        p.wf(),
        p.handle(ino) is None,
    ensures
        p.pin(ino) == p,
        p.unpin(ino) == p,
        p.acquire(ino) == p,
        p.remove(ino) == p,
{
    assert(!p.order.contains(ino)) by {
        assert(p.order.contains(ino) <==> p.entries.contains_key(ino));
    }
    assert(p.remove(ino).entries =~= p.entries);
}

/// A call over a connection carries what the connection knows of its peer.
pub proof fn law_calls_carry_the_peer<A: RpcAuthorizer>(
    context: RpcContext<A>,
    request: RpcAuthRequest,
    program: u32,
    procedure: u32,
)
    requires
        context.is_request(request, program, procedure),
    ensures
        request.client_addr@ == context.client_addr@,
        request.auth_flavor == context.auth_flavor,
        request.auth.uid == context.auth.uid,
        request.auth.gid == context.auth.gid,
        request.auth.gids@ == context.auth.gids@,
        request.program == program,
        request.procedure == procedure,
{
}

/// Serving a request changes nothing of the mount but its pool.
pub proof fn law_mounts_stay(a: NFSAdapter, b: NFSAdapter)
    ensures
        a.same_mount(b) <==> a == (NFSAdapter { handle_pool: a.handle_pool, ..b }),
{
}

} // verus!
