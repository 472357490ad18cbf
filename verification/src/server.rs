//! Server cookies: sixteen bytes that a server hands to a client and
//! recognises when they come back.

use crate::error::Error;
use crate::keyed_hash::{compute_keyed_hash, keyed_hash, secrets_view};
use crate::tags::{Algorithm, Version};
use crate::timestamp::{lemma_timestamp_view_injective, Timestamp};
use crate::wire::{
    decode_u16, decode_u32, decode_u64, encode_u16, encode_u32, encode_u64,
    lemma_u16_bytes_round_trip, lemma_u16_round_trip, lemma_u32_bytes_round_trip,
    lemma_u32_round_trip, lemma_u64_bytes_round_trip, lemma_u64_round_trip, u16_be_bytes,
    u16_from_be, u32_be_bytes, u32_from_be, u64_be_bytes, u64_from_be,
};
use vstd::prelude::*;

verus! {

/// The seconds for which a server cookie is accepted after its timestamp.
pub const MAX_AGE: i64 = 3600;

/// The seconds by which the timestamp of a server cookie may lie ahead.
pub const MAX_SKEW: i64 = 300;

/// The age in seconds from which a server cookie is replaced by a new one.
pub const REFRESH_AGE: i64 = 1800;

/// What a server cookie says: the mathematical value of a [`Server`].
pub ghost struct ServerView {
    /// The format of the cookie.
    pub version: Version,
    /// The function that hashed it.
    pub algorithm: Algorithm,
    /// Sixteen bits that are carried and never read.
    pub reserved: u16,
    /// When it was made, in seconds since the Unix epoch.
    pub timestamp: int,
    /// The eight bytes that the client chose.
    pub client_cookie: Seq<u8>,
    /// The keyed hash of all of the above.
    pub hash: u64,
}

impl ServerView {
    /// The bytes that are hashed for a cookie: the client cookie, the
    /// version byte, the algorithm byte, the reserved field and the low 32
    /// bits of the timestamp, both most significant byte first, then the
    /// secret.
    pub open spec fn hash_input(self, secret: Seq<u8>) -> Seq<u8> {
        self.client_cookie + seq![self.version.spec_code(), self.algorithm.spec_code()]
            + u16_be_bytes(self.reserved) + u32_be_bytes(Timestamp::wire_seconds(self.timestamp))
            + secret
    }

    /// The hash that `secret` gives to the fields of this cookie.
    pub open spec fn hash_under(self, secret: Seq<u8>) -> u64 {
        keyed_hash(self.version, self.algorithm, self.hash_input(secret))
    }

    /// Whether the hash of this cookie is the one that `secret` gives it.
    pub open spec fn signed_by(self, secret: Seq<u8>) -> bool {
        self.hash == self.hash_under(secret)
    }

    /// Whether one of `secrets` signed this cookie.
    pub open spec fn signed_by_any(self, secrets: Seq<Seq<u8>>) -> bool {
        exists|i: int| 0 <= i < secrets.len() && self.signed_by(#[trigger] secrets[i])
    }

    /// The cookie with the given fields, signed with `secret`.
    pub open spec fn new(
        version: Version,
        algorithm: Algorithm,
        reserved: u16,
        timestamp: int,
        client_cookie: Seq<u8>,
        secret: Seq<u8>,
    ) -> ServerView {
        let unsigned = ServerView { version, algorithm, reserved, timestamp, client_cookie, hash: 0 };
        ServerView { hash: unsigned.hash_under(secret), ..unsigned }
    }

    /// What the sixteen bytes `wire` mean at the time `now`, for the client
    /// that sent `client_cookie`, where `secrets` are in use.
    ///
    /// The checks come in this order: the length; the version byte; the
    /// algorithm byte; the age of the timestamp, which may lie an hour
    /// back and five minutes ahead, both bounds included; the hash, which
    /// one of the secrets must give to the fields.
    pub open spec fn decode(
        now: int,
        client_cookie: Seq<u8>,
        wire: Seq<u8>,
        secrets: Seq<Seq<u8>>,
    ) -> Result<ServerView, Error> {
        if wire.len() != 16 {
            Err(Error::IncorrectLength(wire.len() as usize))
        } else {
            match (Version::spec_parse(wire[0]), Algorithm::spec_parse(wire[1])) {
                (Err(e), _) => Err(e),
                (Ok(_), Err(e)) => Err(e),
                (Ok(version), Ok(algorithm)) => {
                    let cookie = ServerView {
                        version,
                        algorithm,
                        reserved: u16_from_be(wire.subrange(2, 4)),
                        timestamp: u32_from_be(wire.subrange(4, 8)) as int,
                        client_cookie,
                        hash: u64_from_be(wire.subrange(8, 16)),
                    };
                    if cookie.timestamp < now - MAX_AGE {
                        Err(Error::Expired)
                    } else if cookie.timestamp > now + MAX_SKEW {
                        Err(Error::TimeTravellor)
                    } else if cookie.signed_by_any(secrets) {
                        Ok(cookie)
                    } else {
                        Err(Error::InvalidHash)
                    }
                },
            }
        }
    }

    /// The cookie to hand out at `time` in place of this one: this one while
    /// it is less than thirty minutes old, and else one with the same
    /// fields and the timestamp `time`, signed with `secret`.
    pub open spec fn regenerate(self, time: int, secret: Seq<u8>) -> ServerView {
        if self.timestamp > time - REFRESH_AGE {
            self
        } else {
            ServerView::new(
                self.version,
                self.algorithm,
                self.reserved,
                time,
                self.client_cookie,
                secret,
            )
        }
    }

    /// The sixteen bytes of this cookie on the wire: version, algorithm,
    /// reserved field, the low 32 bits of the timestamp, hash.
    pub open spec fn encode(self) -> Seq<u8> {
        seq![self.version.spec_code(), self.algorithm.spec_code()] + u16_be_bytes(self.reserved)
            + u32_be_bytes(Timestamp::wire_seconds(self.timestamp)) + u64_be_bytes(self.hash)
    }
}

#[derive(Copy, Clone, Eq, PartialEq, Ord, PartialOrd, Hash, Debug)]
struct Data {
    version: Version,
    algorithm: Algorithm,
    reserved: u16,
    time: Timestamp,
    client_cookie: [u8; 8],
}

/// A 128-bit server cookie.
#[derive(Copy, Clone, Eq, PartialEq, Ord, PartialOrd, Hash, Debug)]
#[must_use]
pub struct Server {
    data: Data,
    hash: u64,
}

impl View for Server {
    type V = ServerView;

    closed spec fn view(&self) -> ServerView {
        ServerView {
            version: self.data.version,
            algorithm: self.data.algorithm,
            reserved: self.data.reserved,
            timestamp: self.data.time@,
            client_cookie: self.data.client_cookie@,
            hash: self.hash,
        }
    }
}

impl Data {
    spec fn unsigned(&self) -> ServerView {
        ServerView {
            version: self.version,
            algorithm: self.algorithm,
            reserved: self.reserved,
            timestamp: self.time@,
            client_cookie: self.client_cookie@,
            hash: 0,
        }
    }

    fn hash(&self, server_secret: &[u8]) -> (tag: u64)
        ensures
            tag == self.unsigned().hash_under(server_secret@),
    {
        let mut message: Vec<u8> = Vec::new();
        message.extend_from_slice(self.client_cookie.as_slice());
        message.push(self.version.code());
        message.push(self.algorithm.code());
        message.extend_from_slice(encode_u16(self.reserved).as_slice());
        message.extend_from_slice(encode_u32(self.time.to_wire()).as_slice());
        message.extend_from_slice(server_secret);
        assert(message@ == self.unsigned().hash_input(server_secret@));
        compute_keyed_hash(self.version, self.algorithm, message.as_slice())
    }
}

impl Server {
    /// Creates a new server cookie, signed with `server_secret`.
    pub fn new(
        version: Version,
        algorithm: Algorithm,
        reserved: u16,
        time: Timestamp,
        client_cookie: [u8; 8],
        server_secret: &[u8],
    ) -> (cookie: Server)
        ensures
            cookie@ == ServerView::new(
                version,
                algorithm,
                reserved,
                time@,
                client_cookie@,
                server_secret@,
            ),
    {
        let data = Data { version, algorithm, reserved, client_cookie, time };
        Server { data, hash: data.hash(server_secret) }
    }

    /// Regenerates a server cookie if the current cookie is thirty minutes
    /// old or older at `time`; a newer cookie is returned as it is. The new
    /// cookie is signed with `server_secret`.
    pub fn regenerate(self, time: Timestamp, server_secret: &[u8]) -> (cookie: Server)
        ensures
            cookie@ == self@.regenerate(time@, server_secret@),
            self@.timestamp > time@ - REFRESH_AGE ==> cookie == self,
    {
        if self.data.time.seconds_until(&time) < REFRESH_AGE as i128 {
            return self;
        }
        let data = Data { time, ..self.data };
        Server { data, hash: data.hash(server_secret) }
    }

    /// Creates and validates a server cookie from bytes.
    ///
    /// The result is the one that [`ServerView::decode`] defines. A cookie
    /// of another length than sixteen bytes is refused for its length
    /// whatever it holds, and no timestamp on the wire is out of the range
    /// of the calendar.
    #[verifier::loop_isolation(false)]
    pub fn decode(
        now: Timestamp,
        client_cookie: [u8; 8],
        server_cookie: &[u8],
        server_secrets: &[&[u8]],
    ) -> (r: Result<Server, Error>)
        ensures
            match r {
                Ok(cookie) => ServerView::decode(
                    now@,
                    client_cookie@,
                    server_cookie@,
                    secrets_view(server_secrets),
                ) == Ok::<ServerView, Error>(cookie@),
                Err(e) => ServerView::decode(
                    now@,
                    client_cookie@,
                    server_cookie@,
                    secrets_view(server_secrets),
                ) == Err::<ServerView, Error>(e),
            },
            server_cookie@.len() != 16 ==> r == Err::<Server, Error>(
                Error::IncorrectLength(server_cookie@.len() as usize),
            ),
    {
        let cookie_len = server_cookie.len();
        if cookie_len != 16 {
            return Err(Error::IncorrectLength(cookie_len));
        }
        let version = Version::parse(server_cookie[0])?;
        let algorithm = Algorithm::parse(server_cookie[1])?;
        let reserved = decode_u16([server_cookie[2], server_cookie[3]]);
        let timestamp = decode_u32(
            [server_cookie[4], server_cookie[5], server_cookie[6], server_cookie[7]],
        );
        let time = Timestamp::from_unix_timestamp(timestamp as i64)?;
        let age = time.seconds_until(&now);
        if age > MAX_AGE as i128 {
            return Err(Error::Expired);
        } else if age < -(MAX_SKEW as i128) {
            return Err(Error::TimeTravellor);
        }
        let hash = decode_u64(
            [
                server_cookie[8],
                server_cookie[9],
                server_cookie[10],
                server_cookie[11],
                server_cookie[12],
                server_cookie[13],
                server_cookie[14],
                server_cookie[15],
            ],
        );
        let ghost expected = ServerView {
            version,
            algorithm,
            reserved,
            timestamp: time@,
            client_cookie: client_cookie@,
            hash,
        };
        let ghost secrets = secrets_view(server_secrets);
        let mut i: usize = 0;
        while i < server_secrets.len()
            invariant
                i <= server_secrets.len(),
                forall|j: int| 0 <= j < i ==> !expected.signed_by(#[trigger] secrets[j]),
            decreases server_secrets.len() - i,
        {
            let cookie = Server::new(
                version,
                algorithm,
                reserved,
                time,
                client_cookie,
                server_secrets[i],
            );
            if cookie.hash == hash {
                assert(expected.signed_by(secrets[i as int]));
                return Ok(cookie);
            }
            i += 1;
        }
        Err(Error::InvalidHash)
    }

    /// Converts a server cookie to bytes.
    #[must_use]
    pub fn encode(self) -> (bytes: [u8; 16])
        ensures
            bytes@ == self@.encode(),
    {
        let reserved = encode_u16(self.data.reserved);
        let timestamp = encode_u32(self.data.time.to_wire());
        let hash = encode_u64(self.hash);
        [
            self.data.version.code(),
            self.data.algorithm.code(),
            reserved[0],
            reserved[1],
            timestamp[0],
            timestamp[1],
            timestamp[2],
            timestamp[3],
            hash[0],
            hash[1],
            hash[2],
            hash[3],
            hash[4],
            hash[5],
            hash[6],
            hash[7],
        ]
    }
}

/// Two server cookies with the same view are the same cookie.
pub proof fn lemma_server_view_injective(a: Server, b: Server)
    requires
        a@ == b@,
    ensures
        a == b,
{
    lemma_timestamp_view_injective(a.data.time, b.data.time);
    assert(a.data.client_cookie =~= b.data.client_cookie);
}

/// What the bytes of a cookie decode to. Where the timestamp of `cookie`
/// fits the 32 bits that the wire has for it, decoding its encoding for
/// the client cookie that it holds gives `Expired` where the timestamp is
/// more than an hour before `now`, else `TimeTravellor` where it is more
/// than five minutes after `now`, else `cookie` itself where one of
/// `secrets` signed it, and else `InvalidHash`.
pub proof fn lemma_decode_of_encode(cookie: ServerView, now: int, secrets: Seq<Seq<u8>>)
    requires
        0 <= cookie.timestamp < 0x1_0000_0000,
    ensures
        ServerView::decode(now, cookie.client_cookie, cookie.encode(), secrets) == (
        if cookie.timestamp < now - MAX_AGE {
            Err::<ServerView, Error>(Error::Expired)
        } else if cookie.timestamp > now + MAX_SKEW {
            Err(Error::TimeTravellor)
        } else if cookie.signed_by_any(secrets) {
            Ok(cookie)
        } else {
            Err(Error::InvalidHash)
        }),
{
    lemma_u16_round_trip(cookie.reserved);
    lemma_u32_round_trip(Timestamp::wire_seconds(cookie.timestamp));
    lemma_u64_round_trip(cookie.hash);
}

/// A cookie that decodes from sixteen bytes encodes to the same bytes.
pub proof fn lemma_encode_of_decode(
    now: int,
    client_cookie: Seq<u8>,
    wire: Seq<u8>,
    secrets: Seq<Seq<u8>>,
)
    ensures
        ServerView::decode(now, client_cookie, wire, secrets) matches Ok(cookie)
            ==> cookie.encode() == wire,
{
    if wire.len() == 16 {
        lemma_u16_bytes_round_trip(wire.subrange(2, 4));
        lemma_u32_bytes_round_trip(wire.subrange(4, 8));
        lemma_u64_bytes_round_trip(wire.subrange(8, 16));
    }
}

/// Round trip: a cookie that was made with a secret in use decodes from
/// its own bytes to itself, for as long as it is fresh. The timestamp must
/// fit the 32 bits that the wire has for it.
pub proof fn lemma_round_trip(
    version: Version,
    algorithm: Algorithm,
    reserved: u16,
    timestamp: int,
    client_cookie: Seq<u8>,
    secret: Seq<u8>,
    now: int,
    secrets: Seq<Seq<u8>>,
)
    requires
        0 <= timestamp < 0x1_0000_0000,
        now - MAX_AGE <= timestamp <= now + MAX_SKEW,
        secrets.contains(secret),
    ensures
        ServerView::decode(
            now,
            client_cookie,
            ServerView::new(version, algorithm, reserved, timestamp, client_cookie, secret).encode(),
            secrets,
        ) == Ok::<ServerView, Error>(
            ServerView::new(version, algorithm, reserved, timestamp, client_cookie, secret),
        ),
{
    let cookie = ServerView::new(version, algorithm, reserved, timestamp, client_cookie, secret);
    let i = choose|i: int| 0 <= i < secrets.len() && secrets[i] == secret;
    assert(cookie.signed_by(secrets[i]));
    lemma_decode_of_encode(cookie, now, secrets);
}

/// Secret rotation: a fresh cookie signed with `current` decodes to itself
/// whether `current` comes before or after another secret in the list. With
/// the other secret alone it is refused for its hash, unless the other
/// secret happens to give the same hash.
pub proof fn lemma_secret_rotation(
    cookie: ServerView,
    now: int,
    current: Seq<u8>,
    other: Seq<u8>,
)
    requires
        0 <= cookie.timestamp < 0x1_0000_0000,
        now - MAX_AGE <= cookie.timestamp <= now + MAX_SKEW,
        cookie.signed_by(current),
    ensures
        ServerView::decode(
            now,
            cookie.client_cookie,
            cookie.encode(),
            seq![other, current],
        ) == Ok::<ServerView, Error>(cookie),
        ServerView::decode(
            now,
            cookie.client_cookie,
            cookie.encode(),
            seq![current, other],
        ) == Ok::<ServerView, Error>(cookie),
        !cookie.signed_by(other) ==> ServerView::decode(
            now,
            cookie.client_cookie,
            cookie.encode(),
            seq![other],
        ) == Err::<ServerView, Error>(Error::InvalidHash),
{
    lemma_decode_of_encode(cookie, now, seq![other, current]);
    lemma_decode_of_encode(cookie, now, seq![current, other]);
    lemma_decode_of_encode(cookie, now, seq![other]);
}

/// Freshness boundaries: a cookie signed with a secret in use is accepted
/// exactly one hour after its timestamp and refused as expired one second
/// later; it is accepted exactly five minutes before its timestamp and
/// refused as coming from the future one second earlier.
pub proof fn lemma_freshness_boundaries(cookie: ServerView, secrets: Seq<Seq<u8>>)
    requires
        0 <= cookie.timestamp < 0x1_0000_0000,
        cookie.signed_by_any(secrets),
    ensures
        ServerView::decode(
            cookie.timestamp + MAX_AGE + 1,
            cookie.client_cookie,
            cookie.encode(),
            secrets,
        ) == Err::<ServerView, Error>(Error::Expired),
        ServerView::decode(
            cookie.timestamp + MAX_AGE,
            cookie.client_cookie,
            cookie.encode(),
            secrets,
        ) == Ok::<ServerView, Error>(cookie),
        ServerView::decode(
            cookie.timestamp - MAX_SKEW - 1,
            cookie.client_cookie,
            cookie.encode(),
            secrets,
        ) == Err::<ServerView, Error>(Error::TimeTravellor),
        ServerView::decode(
            cookie.timestamp - MAX_SKEW,
            cookie.client_cookie,
            cookie.encode(),
            secrets,
        ) == Ok::<ServerView, Error>(cookie),
{
    lemma_decode_of_encode(cookie, cookie.timestamp + MAX_AGE + 1, secrets);
    lemma_decode_of_encode(cookie, cookie.timestamp + MAX_AGE, secrets);
    lemma_decode_of_encode(cookie, cookie.timestamp - MAX_SKEW - 1, secrets);
    lemma_decode_of_encode(cookie, cookie.timestamp - MAX_SKEW, secrets);
}

/// Regeneration: less than thirty minutes after its timestamp a cookie is
/// handed back as it is, so its bytes stay the same. From thirty minutes on
/// the new cookie has the new timestamp, which is another one, keeps the
/// other fields, is signed with the given secret, and decodes from its own
/// bytes to itself at that time, where the secret is in use and the time
/// fits the 32 bits of the wire.
pub proof fn lemma_regenerate(cookie: ServerView, time: int, secret: Seq<u8>, secrets: Seq<Seq<u8>>)
    ensures
        time - cookie.timestamp < REFRESH_AGE ==> {
            &&& cookie.regenerate(time, secret) == cookie
            &&& cookie.regenerate(time, secret).encode() == cookie.encode()
        },
        time - cookie.timestamp >= REFRESH_AGE ==> {
            &&& cookie.regenerate(time, secret).timestamp == time
            &&& cookie.regenerate(time, secret).timestamp != cookie.timestamp
            &&& cookie.regenerate(time, secret) == ServerView {
                timestamp: time,
                hash: cookie.regenerate(time, secret).hash,
                ..cookie
            }
            &&& cookie.regenerate(time, secret).signed_by(secret)
        },
        time - cookie.timestamp >= REFRESH_AGE && 0 <= time < 0x1_0000_0000
            && secrets.contains(secret) ==> ServerView::decode(
            time,
            cookie.client_cookie,
            cookie.regenerate(time, secret).encode(),
            secrets,
        ) == Ok::<ServerView, Error>(cookie.regenerate(time, secret)),
{
    if time - cookie.timestamp >= REFRESH_AGE && 0 <= time < 0x1_0000_0000
        && secrets.contains(secret) {
        lemma_round_trip(
            cookie.version,
            cookie.algorithm,
            cookie.reserved,
            time,
            cookie.client_cookie,
            secret,
            time,
            secrets,
        );
    }
}

} // verus!
