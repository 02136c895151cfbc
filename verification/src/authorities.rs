//! The trust anchors of a node.

use crate::error::{invalid_multiaddr, map_multiaddr_err, ApiError};
use vstd::prelude::*;

verus! {

/// The outside type [`ockam_multiaddr::MultiAddr`], carried as an opaque
/// value: a route to an authority.
#[verifier::external_type_specification]
#[verifier::external_body]
pub struct ExMultiAddr(ockam_multiaddr::MultiAddr);

/// The bytes that a route is written in: what `MultiAddr::as_ref` of
/// `ockam_multiaddr` hands out, and what its `==` compares.
pub uninterp spec fn route_bytes(addr: ockam_multiaddr::MultiAddr) -> Seq<u8>;

/// `MultiAddr`'s `clone` from `ockam_multiaddr`: the copy is written in the
/// same bytes.
pub assume_specification[ <ockam_multiaddr::MultiAddr as Clone>::clone ](
    addr: &ockam_multiaddr::MultiAddr,
) -> (copy: ockam_multiaddr::MultiAddr)
    ensures
        route_bytes(copy) == route_bytes(*addr),
;

/// What `MultiAddr::try_from` of `ockam_multiaddr` makes of a text: the
/// bytes of the route that the text writes, or nothing where it writes no
/// route.
pub uninterp spec fn parsed_route(text: Seq<char>) -> Option<Seq<u8>>;

/// `MultiAddr::try_from` of `ockam_multiaddr`, for a text: reads the text
/// with the crate's own list of protocols, which is the same at every call.
#[verifier::external_body]
fn parse_route(text: &str) -> (r: Result<ockam_multiaddr::MultiAddr, ockam_multiaddr::Error>)
    ensures
        match r {
            Ok(addr) => parsed_route(text@) == Some(route_bytes(addr)),
            Err(_) => parsed_route(text@) is None,
        },
{
    ockam_multiaddr::MultiAddr::try_from(text)
}

/// Keeps a route that was read, and reports every failure to read one as
/// an invalid multiaddr.
pub fn checked_route(parsed: Result<ockam_multiaddr::MultiAddr, ockam_multiaddr::Error>) -> (r:
    Result<ockam_multiaddr::MultiAddr, ApiError>)
    ensures
        match parsed {
            Ok(addr) => r == Ok::<ockam_multiaddr::MultiAddr, ApiError>(addr),
            Err(_) => r matches Err(e) && e@ == invalid_multiaddr(),
        },
{
    match parsed {
        Ok(addr) => Ok(addr),
        Err(e) => Err(map_multiaddr_err(e)),
    }
}

/// Reads a route from its text.
pub fn read_route(text: &str) -> (r: Result<ockam_multiaddr::MultiAddr, ApiError>)
    ensures
        match r {
            Ok(addr) => parsed_route(text@) == Some(route_bytes(addr)),
            Err(e) => parsed_route(text@) is None && e@ == invalid_multiaddr(),
        },
{
    checked_route(parse_route(text))
}

/// An authority as the configuration names it: its identity as it was
/// exported, and the route on which it is reached.
pub struct AuthorityEntry {
    pub identity: Vec<u8>,
    pub access_route: ockam_multiaddr::MultiAddr,
}

pub struct AuthorityEntryView {
    pub identity: Seq<u8>,
    pub access_route: Seq<u8>,
}

impl View for AuthorityEntry {
    type V = AuthorityEntryView;

    open spec fn view(&self) -> AuthorityEntryView {
        AuthorityEntryView {
            identity: self.identity@,
            access_route: route_bytes(self.access_route),
        }
    }
}

pub open spec fn entry_views(v: Seq<AuthorityEntry>) -> Seq<AuthorityEntryView> {
    v.map_values(|e: AuthorityEntry| e@)
}

/// The authority that an entry of the configuration becomes once its
/// identity is verified.
pub open spec fn verified(entry: AuthorityEntryView) -> AuthorityView {
    AuthorityView { identity: entry.identity, addr: entry.access_route }
}

impl AuthorityEntry {
    /// An entry from the identity and the text of the route.
    pub fn new(identity: Vec<u8>, access_route: &str) -> (r: Result<AuthorityEntry, ApiError>)
        ensures
            match r {
                Ok(entry) => parsed_route(access_route@) == Some(entry@.access_route)
                    && entry@.identity == identity@,
                Err(e) => parsed_route(access_route@) is None && e@ == invalid_multiaddr(),
            },
    {
        match read_route(access_route) {
            Ok(route) => Ok(AuthorityEntry { identity, access_route: route }),
            Err(e) => Err(e),
        }
    }
}

/// An authority whose identity was verified against the node's vault.
pub struct AuthorityInfo {
    identity: Vec<u8>,
    addr: ockam_multiaddr::MultiAddr,
}

pub struct AuthorityView {
    pub identity: Seq<u8>,
    pub addr: Seq<u8>,
}

impl View for AuthorityInfo {
    type V = AuthorityView;

    closed spec fn view(&self) -> AuthorityView {
        AuthorityView { identity: self.identity@, addr: route_bytes(self.addr) }
    }
}

impl AuthorityInfo {
    pub fn new(identity: Vec<u8>, addr: ockam_multiaddr::MultiAddr) -> (info: AuthorityInfo)
        ensures
            info@ == (AuthorityView { identity: identity@, addr: route_bytes(addr) }),
    {
        AuthorityInfo { identity, addr }
    }

    /// The authority that `entry` names, once its identity is verified.
    pub fn from_entry(entry: &AuthorityEntry) -> (info: AuthorityInfo)
        ensures
            info@ == verified(entry@),
    {
        AuthorityInfo { identity: entry.identity.clone(), addr: entry.access_route.clone() }
    }

    pub fn identity(&self) -> (identity: &Vec<u8>)
        ensures
            identity@ == self@.identity,
    {
        &self.identity
    }

    pub fn addr(&self) -> (addr: &ockam_multiaddr::MultiAddr)
        ensures
            route_bytes(*addr) == self@.addr,
    {
        &self.addr
    }
}

pub open spec fn authority_views(v: Seq<AuthorityInfo>) -> Seq<AuthorityView> {
    v.map_values(|a: AuthorityInfo| a@)
}

/// The identities of a list of authorities, in the order of the list.
pub open spec fn identities_of(v: Seq<AuthorityView>) -> Seq<Seq<u8>> {
    v.map_values(|a: AuthorityView| a.identity)
}

pub open spec fn byte_strings(v: Seq<Vec<u8>>) -> Seq<Seq<u8>> {
    v.map_values(|b: Vec<u8>| b@)
}

/// The authorities that a node trusts, in the order of its configuration.
pub struct Authorities(Vec<AuthorityInfo>);

impl View for Authorities {
    type V = Seq<AuthorityView>;

    closed spec fn view(&self) -> Seq<AuthorityView> {
        authority_views(self.0@)
    }
}

impl Authorities {
    pub fn new(authorities: Vec<AuthorityInfo>) -> (a: Authorities)
        ensures
            a@ == authority_views(authorities@),
    {
        Authorities(authorities)
    }

    pub fn public_identities(&self) -> (identities: Vec<Vec<u8>>)
        ensures
            byte_strings(identities@) == identities_of(self@),
    {
        let mut identities: Vec<Vec<u8>> = Vec::new();
        let mut i: usize = 0;
        while i < self.0.len()
            invariant
                i <= self.0.len(),
                identities.len() == i,
                forall|j: int| 0 <= j < i ==> (#[trigger] identities@[j])@ == self.0@[j].identity@,
            decreases self.0.len() - i,
        {
            identities.push(self.0[i].identity.clone());
            i += 1;
        }
        assert(byte_strings(identities@) =~= identities_of(self@));
        identities
    }

    /// The authorities as a list.
    pub fn as_ref(&self) -> (list: &Vec<AuthorityInfo>)
        ensures
            authority_views(list@) == self@,
    {
        &self.0
    }

    pub fn len(&self) -> (n: usize)
        ensures
            n == self@.len(),
    {
        self.0.len()
    }
}

} // verus!
