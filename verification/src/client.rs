//! Client cookies: eight bytes by which a client is known to one server.
//!
//! A client cookie is the keyed hash of the two addresses of a
//! conversation. It holds no time and never expires.

use crate::error::Error;
use crate::keyed_hash::{compute_keyed_hash, keyed_hash, secrets_view};
use crate::tags::{Algorithm, Version};
use crate::wire::{
    decode_u64, encode_u64, lemma_u64_bytes_round_trip, lemma_u64_round_trip, u64_be_bytes,
    u64_from_be,
};
use vstd::prelude::*;

verus! {

/// An IP address, as the bytes that are hashed for it: four for version 4,
/// sixteen for version 6, in network order.
#[derive(Copy, Clone, Eq, PartialEq, Ord, PartialOrd, Hash, Debug)]
pub enum IpAddr {
    /// An IPv4 address.
    V4([u8; 4]),
    /// An IPv6 address.
    V6([u8; 16]),
}

impl IpAddr {
    /// The bytes of the address.
    pub open spec fn spec_octets(self) -> Seq<u8> {
        match self {
            IpAddr::V4(octets) => octets@,
            IpAddr::V6(octets) => octets@,
        }
    }

    /// The bytes of the address.
    pub fn octets(&self) -> (octets: &[u8])
        ensures
            octets@ == self.spec_octets(),
    {
        match self {
            IpAddr::V4(octets) => octets.as_slice(),
            IpAddr::V6(octets) => octets.as_slice(),
        }
    }
}

/// What a client cookie says: the mathematical value of a [`Client`].
pub ghost struct ClientView {
    /// The keyed hash of the two addresses.
    pub hash: u64,
}

impl ClientView {
    /// The bytes that are hashed for a cookie: the address of the client,
    /// the address of the server, the secret.
    pub open spec fn hash_input(client_ip: IpAddr, server_ip: IpAddr, secret: Seq<u8>) -> Seq<u8> {
        client_ip.spec_octets() + server_ip.spec_octets() + secret
    }

    /// The cookie of the client at `client_ip` for the server at
    /// `server_ip`, under `secret`.
    pub open spec fn new(
        version: Version,
        algorithm: Algorithm,
        client_ip: IpAddr,
        server_ip: IpAddr,
        secret: Seq<u8>,
    ) -> ClientView {
        ClientView {
            hash: keyed_hash(version, algorithm, Self::hash_input(client_ip, server_ip, secret)),
        }
    }

    /// The eight bytes of this cookie on the wire: the hash, most
    /// significant byte first.
    pub open spec fn encode(self) -> Seq<u8> {
        u64_be_bytes(self.hash)
    }

    /// Whether one of `secrets` gives this cookie to the two addresses.
    pub open spec fn signed_by_any(
        self,
        version: Version,
        algorithm: Algorithm,
        client_ip: IpAddr,
        server_ip: IpAddr,
        secrets: Seq<Seq<u8>>,
    ) -> bool {
        exists|i: int|
            0 <= i < secrets.len() && self == Self::new(
                version,
                algorithm,
                client_ip,
                server_ip,
                #[trigger] secrets[i],
            )
    }

    /// What the eight bytes `wire` mean for the two addresses, where
    /// `secrets` are in use: the cookie that they spell, where one of the
    /// secrets gives it to the addresses.
    pub open spec fn decode(
        version: Version,
        algorithm: Algorithm,
        client_ip: IpAddr,
        server_ip: IpAddr,
        wire: Seq<u8>,
        secrets: Seq<Seq<u8>>,
    ) -> Result<ClientView, Error> {
        let cookie = ClientView { hash: u64_from_be(wire) };
        if cookie.signed_by_any(version, algorithm, client_ip, server_ip, secrets) {
            Ok(cookie)
        } else {
            Err(Error::InvalidHash)
        }
    }
}

/// A 64-bit client cookie.
#[derive(Copy, Clone, Eq, PartialEq, Ord, PartialOrd, Hash, Debug)]
#[must_use]
pub struct Client {
    hash: u64,
}

impl View for Client {
    type V = ClientView;

    closed spec fn view(&self) -> ClientView {
        ClientView { hash: self.hash }
    }
}

impl Client {
    /// Creates a new client cookie.
    pub fn new(
        version: Version,
        algorithm: Algorithm,
        client_ip: IpAddr,
        server_ip: IpAddr,
        client_secret: &[u8],
    ) -> (cookie: Client)
        ensures
            cookie@ == ClientView::new(version, algorithm, client_ip, server_ip, client_secret@),
    {
        let mut message: Vec<u8> = Vec::new();
        message.extend_from_slice(client_ip.octets());
        message.extend_from_slice(server_ip.octets());
        message.extend_from_slice(client_secret);
        assert(message@ == ClientView::hash_input(client_ip, server_ip, client_secret@));
        Client { hash: compute_keyed_hash(version, algorithm, message.as_slice()) }
    }

    /// Creates and validates a client cookie from bytes: the cookie that
    /// the bytes spell, where one of the secrets gives it to the two
    /// addresses, and `InvalidHash` where none does.
    #[verifier::loop_isolation(false)]
    pub fn decode(
        version: Version,
        algorithm: Algorithm,
        client_ip: IpAddr,
        server_ip: IpAddr,
        client_cookie: [u8; 8],
        client_secrets: &[&[u8]],
    ) -> (r: Result<Client, Error>)
        ensures
            match r {
                Ok(cookie) => ClientView::decode(
                    version,
                    algorithm,
                    client_ip,
                    server_ip,
                    client_cookie@,
                    secrets_view(client_secrets),
                ) == Ok::<ClientView, Error>(cookie@),
                Err(e) => ClientView::decode(
                    version,
                    algorithm,
                    client_ip,
                    server_ip,
                    client_cookie@,
                    secrets_view(client_secrets),
                ) == Err::<ClientView, Error>(e),
            },
    {
        let hash = decode_u64(client_cookie);
        let ghost expected = ClientView { hash };
        let ghost secrets = secrets_view(client_secrets);
        let mut i: usize = 0;
        while i < client_secrets.len()
            invariant
                i <= client_secrets.len(),
                forall|j: int|
                    0 <= j < i ==> expected != ClientView::new(
                        version,
                        algorithm,
                        client_ip,
                        server_ip,
                        #[trigger] secrets[j],
                    ),
            decreases client_secrets.len() - i,
        {
            let cookie = Self::new(version, algorithm, client_ip, server_ip, client_secrets[i]);
            if cookie.hash == hash {
                assert(expected == ClientView::new(
                    version,
                    algorithm,
                    client_ip,
                    server_ip,
                    secrets[i as int],
                ));
                return Ok(cookie);
            }
            i += 1;
        }
        Err(Error::InvalidHash)
    }

    /// Converts a client cookie to bytes.
    #[must_use]
    pub fn encode(self) -> (bytes: [u8; 8])
        ensures
            bytes@ == self@.encode(),
    {
        encode_u64(self.hash)
    }
}

/// Two client cookies with the same view are the same cookie.
pub proof fn lemma_client_view_injective(a: Client, b: Client)
    requires
        a@ == b@,
    ensures
        a == b,
{
}

/// Round trip: the cookie of two addresses under a secret in use decodes
/// from its own bytes to itself, for the same addresses.
pub proof fn lemma_client_round_trip(
    version: Version,
    algorithm: Algorithm,
    client_ip: IpAddr,
    server_ip: IpAddr,
    secret: Seq<u8>,
    secrets: Seq<Seq<u8>>,
)
    requires
        secrets.contains(secret),
    ensures
        ClientView::decode(
            version,
            algorithm,
            client_ip,
            server_ip,
            ClientView::new(version, algorithm, client_ip, server_ip, secret).encode(),
            secrets,
        ) == Ok::<ClientView, Error>(
            ClientView::new(version, algorithm, client_ip, server_ip, secret),
        ),
{
    let cookie = ClientView::new(version, algorithm, client_ip, server_ip, secret);
    lemma_u64_round_trip(cookie.hash);
    let i = choose|i: int| 0 <= i < secrets.len() && secrets[i] == secret;
    assert(cookie == ClientView::new(version, algorithm, client_ip, server_ip, secrets[i]));
}

/// A cookie that decodes from eight bytes encodes to the same bytes.
pub proof fn lemma_client_encode_of_decode(
    version: Version,
    algorithm: Algorithm,
    client_ip: IpAddr,
    server_ip: IpAddr,
    wire: Seq<u8>,
    secrets: Seq<Seq<u8>>,
)
    requires
        wire.len() == 8,
    ensures
        ClientView::decode(version, algorithm, client_ip, server_ip, wire, secrets) matches Ok(cookie)
            ==> cookie.encode() == wire,
{
    lemma_u64_bytes_round_trip(wire);
}

} // verus!
