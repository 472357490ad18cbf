use dns_cookie::server::{MAX_AGE, MAX_SKEW, REFRESH_AGE};
use dns_cookie::{Algorithm, Error, Server, Timestamp, Version};

const T0: i64 = 1_672_531_200;
const CLIENT_COOKIE: [u8; 8] = [1, 1, 1, 1, 1, 1, 1, 1];
const SCENARIO_BYTES: [u8; 16] = [
    0x01, 0x04, 0x00, 0x00, 0x63, 0xB0, 0xCD, 0x00, 0xBC, 0x67, 0xC9, 0xD5, 0x2A, 0x04, 0xA4, 0x28,
];

fn time(secs: i64) -> Timestamp {
    Timestamp::from_unix_timestamp(secs).unwrap()
}

fn cookie_at(secs: i64, secret: &[u8]) -> Server {
    Server::new(
        Version::One,
        Algorithm::SipHash24,
        0,
        time(secs),
        CLIENT_COOKIE,
        secret,
    )
}

#[test]
fn the_windows_are_an_hour_five_minutes_and_half_an_hour() {
    assert_eq!(MAX_AGE, 3600);
    assert_eq!(MAX_SKEW, 300);
    assert_eq!(REFRESH_AGE, 1800);
}

#[test]
fn scenario_encode_layout() {
    let s = cookie_at(T0, b"s1");
    let bytes = s.encode();
    assert_eq!(bytes[0], 1);
    assert_eq!(bytes[1], 4);
    assert_eq!(bytes[2..4], [0u8, 0]);
    assert_eq!(bytes[4..8], (T0 as u32).to_be_bytes());
    assert_eq!(bytes, SCENARIO_BYTES);
}

#[test]
fn scenario_decode_returns_the_cookie() {
    let s = cookie_at(T0, b"s1");
    let bytes = s.encode();
    assert_eq!(
        Server::decode(time(T0), CLIENT_COOKIE, &bytes, &[b"s1"]),
        Ok(s)
    );
}

#[test]
fn scenario_two_hours_later_is_expired() {
    let bytes = cookie_at(T0, b"s1").encode();
    assert_eq!(
        Server::decode(time(T0 + 2 * 3600), CLIENT_COOKIE, &bytes, &[b"s1"]),
        Err(Error::Expired)
    );
}

#[test]
fn the_hash_covers_every_field_in_order() {
    let s = Server::new(
        Version::One,
        Algorithm::SipHash24,
        0xBEEF,
        time(T0 + 1800),
        [9, 8, 7, 6, 5, 4, 3, 2],
        b"rotate",
    );
    assert_eq!(
        s.encode(),
        [
            0x01, 0x04, 0xBE, 0xEF, 0x63, 0xB0, 0xD4, 0x08, 0xD2, 0xE1, 0xC0, 0x31, 0x52, 0x09,
            0xAA, 0x78
        ]
    );
}

#[test]
fn the_hash_depends_on_the_secret() {
    assert_eq!(cookie_at(T0, b"s2").encode()[8..], 0x7142_ED08_F6D7_662Au64.to_be_bytes());
    assert_ne!(cookie_at(T0, b"s1"), cookie_at(T0, b"s2"));
}

#[test]
fn the_hash_depends_on_the_client_cookie_and_the_reserved_field() {
    let base = cookie_at(T0, b"s1");
    let other_client = Server::new(
        Version::One,
        Algorithm::SipHash24,
        0,
        time(T0),
        [1, 1, 1, 1, 1, 1, 1, 2],
        b"s1",
    );
    let other_reserved = Server::new(
        Version::One,
        Algorithm::SipHash24,
        1,
        time(T0),
        CLIENT_COOKIE,
        b"s1",
    );
    assert_ne!(base.encode()[8..], other_client.encode()[8..]);
    assert_ne!(base.encode()[8..], other_reserved.encode()[8..]);
    assert_eq!(other_reserved.encode()[2..4], [0u8, 1]);
}

#[test]
fn identical_inputs_give_identical_cookies() {
    assert_eq!(cookie_at(T0, b"s1"), cookie_at(T0, b"s1"));
    assert_eq!(cookie_at(T0, b"s1").encode(), cookie_at(T0, b"s1").encode());
}

#[test]
fn round_trip_for_many_fields() {
    let secrets: [&[u8]; 3] = [b"", b"s1", b"a much longer secret than eight bytes"];
    for secret in secrets {
        for reserved in [0u16, 1, 0x00FF, 0xFF00, 0xBEEF, u16::MAX] {
            for secs in [0i64, 1, T0, 0x7FFF_FFFF, 0x8000_0000, 0xFFFF_FFFF] {
                for client_cookie in [[0u8; 8], [0xFF; 8], [1, 2, 3, 4, 5, 6, 7, 8]] {
                    let s = Server::new(
                        Version::One,
                        Algorithm::SipHash24,
                        reserved,
                        time(secs),
                        client_cookie,
                        secret,
                    );
                    let bytes = s.encode();
                    assert_eq!(
                        Server::decode(time(secs), client_cookie, &bytes, &[secret]),
                        Ok(s)
                    );
                    let again = Server::decode(time(secs), client_cookie, &bytes, &[secret]);
                    assert_eq!(again.unwrap().encode(), bytes);
                }
            }
        }
    }
}

#[test]
fn secret_rotation_accepts_the_old_secret_in_either_place() {
    let s = cookie_at(T0, b"s1");
    let bytes = s.encode();
    assert_eq!(
        Server::decode(time(T0), CLIENT_COOKIE, &bytes, &[b"s2", b"s1"]),
        Ok(s)
    );
    assert_eq!(
        Server::decode(time(T0), CLIENT_COOKIE, &bytes, &[b"s1", b"s2"]),
        Ok(s)
    );
}

#[test]
fn secret_rotation_refuses_a_retired_secret() {
    let bytes = cookie_at(T0, b"s1").encode();
    assert_eq!(
        Server::decode(time(T0), CLIENT_COOKIE, &bytes, &[b"s2"]),
        Err(Error::InvalidHash)
    );
}

#[test]
fn no_secret_at_all_is_an_invalid_hash() {
    let bytes = cookie_at(T0, b"s1").encode();
    assert_eq!(
        Server::decode(time(T0), CLIENT_COOKIE, &bytes, &[]),
        Err(Error::InvalidHash)
    );
}

#[test]
fn another_client_cookie_is_an_invalid_hash() {
    let bytes = cookie_at(T0, b"s1").encode();
    assert_eq!(
        Server::decode(time(T0), [1, 1, 1, 1, 1, 1, 1, 0], &bytes, &[b"s1"]),
        Err(Error::InvalidHash)
    );
}

#[test]
fn a_changed_byte_is_an_invalid_hash() {
    let bytes = cookie_at(T0, b"s1").encode();
    for index in [2usize, 3, 8, 15] {
        let mut changed = bytes;
        changed[index] ^= 0x01;
        assert_eq!(
            Server::decode(time(T0), CLIENT_COOKIE, &changed, &[b"s1"]),
            Err(Error::InvalidHash)
        );
    }
    let mut later = bytes;
    later[7] ^= 0x01;
    assert_eq!(
        Server::decode(time(T0), CLIENT_COOKIE, &later, &[b"s1"]),
        Err(Error::InvalidHash)
    );
}

#[test]
fn length_guard_comes_before_every_other_check() {
    let bytes = cookie_at(T0, b"s1").encode();
    assert_eq!(
        Server::decode(time(T0), CLIENT_COOKIE, &[], &[b"s1"]),
        Err(Error::IncorrectLength(0))
    );
    assert_eq!(
        Server::decode(time(T0), CLIENT_COOKIE, &bytes[..15], &[b"s1"]),
        Err(Error::IncorrectLength(15))
    );
    let mut longer = bytes.to_vec();
    longer.push(0);
    assert_eq!(
        Server::decode(time(T0), CLIENT_COOKIE, &longer, &[b"s1"]),
        Err(Error::IncorrectLength(17))
    );
    assert_eq!(
        Server::decode(time(T0), CLIENT_COOKIE, &[9, 9, 9], &[b"s1"]),
        Err(Error::IncorrectLength(3))
    );
    assert_eq!(
        Server::decode(time(T0 + 9999), CLIENT_COOKIE, &[0u8; 8], &[]),
        Err(Error::IncorrectLength(8))
    );
}

#[test]
fn version_is_checked_before_algorithm() {
    let mut bytes = cookie_at(T0, b"s1").encode();
    bytes[0] = 2;
    bytes[1] = 9;
    assert_eq!(
        Server::decode(time(T0), CLIENT_COOKIE, &bytes, &[b"s1"]),
        Err(Error::UnknownVersion(2))
    );
    bytes[0] = 0;
    assert_eq!(
        Server::decode(time(T0), CLIENT_COOKIE, &bytes, &[b"s1"]),
        Err(Error::UnknownVersion(0))
    );
}

#[test]
fn algorithm_is_checked_before_freshness() {
    let mut bytes = cookie_at(T0, b"s1").encode();
    bytes[1] = 7;
    assert_eq!(
        Server::decode(time(T0 + 10 * 3600), CLIENT_COOKIE, &bytes, &[b"s1"]),
        Err(Error::UnknownAlgorithm(7))
    );
    bytes[1] = 1;
    assert_eq!(
        Server::decode(time(T0), CLIENT_COOKIE, &bytes, &[b"s1"]),
        Err(Error::UnsupportedAlgorithm("FNV"))
    );
    bytes[1] = 2;
    assert_eq!(
        Server::decode(time(T0), CLIENT_COOKIE, &bytes, &[b"s1"]),
        Err(Error::UnsupportedAlgorithm("HMAC-SHA-256-64"))
    );
    bytes[1] = 3;
    assert_eq!(
        Server::decode(time(T0), CLIENT_COOKIE, &bytes, &[b"s1"]),
        Err(Error::UnsupportedAlgorithm("AES"))
    );
}

#[test]
fn freshness_is_checked_before_the_hash() {
    let bytes = cookie_at(T0, b"s1").encode();
    assert_eq!(
        Server::decode(time(T0 + 3601), CLIENT_COOKIE, &bytes, &[b"s2"]),
        Err(Error::Expired)
    );
    assert_eq!(
        Server::decode(time(T0 - 301), CLIENT_COOKIE, &bytes, &[]),
        Err(Error::TimeTravellor)
    );
}

#[test]
fn freshness_boundary_one_hour() {
    let s = cookie_at(T0, b"s1");
    let bytes = s.encode();
    assert_eq!(
        Server::decode(time(T0 + 3600 + 1), CLIENT_COOKIE, &bytes, &[b"s1"]),
        Err(Error::Expired)
    );
    assert_eq!(
        Server::decode(time(T0 + 3600), CLIENT_COOKIE, &bytes, &[b"s1"]),
        Ok(s)
    );
}

#[test]
fn freshness_boundary_five_minutes() {
    let s = cookie_at(T0, b"s1");
    let bytes = s.encode();
    assert_eq!(
        Server::decode(time(T0 - 300 - 1), CLIENT_COOKIE, &bytes, &[b"s1"]),
        Err(Error::TimeTravellor)
    );
    assert_eq!(
        Server::decode(time(T0 - 300), CLIENT_COOKIE, &bytes, &[b"s1"]),
        Ok(s)
    );
}

#[test]
fn freshness_at_the_ends_of_the_clock() {
    let bytes = cookie_at(0, b"s1").encode();
    let far = time(dns_cookie::timestamp::MAX_UNIX_TIMESTAMP);
    assert_eq!(
        Server::decode(far, CLIENT_COOKIE, &bytes, &[b"s1"]),
        Err(Error::Expired)
    );
    let early = time(dns_cookie::timestamp::MIN_UNIX_TIMESTAMP);
    assert_eq!(
        Server::decode(early, CLIENT_COOKIE, &bytes, &[b"s1"]),
        Err(Error::TimeTravellor)
    );
}

#[test]
fn regenerate_keeps_a_young_cookie() {
    let s = cookie_at(T0, b"s1");
    for gap in [0i64, 1, 1799] {
        let kept = s.regenerate(time(T0 + gap), b"s2");
        assert_eq!(kept, s);
        assert_eq!(kept.encode(), SCENARIO_BYTES);
    }
    let earlier = s.regenerate(time(T0 - 5000), b"s2");
    assert_eq!(earlier.encode(), SCENARIO_BYTES);
}

#[test]
fn regenerate_replaces_an_old_cookie() {
    let s = cookie_at(T0, b"s1");
    let fresh = s.regenerate(time(T0 + 1800), b"s1");
    assert_ne!(fresh, s);
    assert_eq!(fresh, cookie_at(T0 + 1800, b"s1"));
    let bytes = fresh.encode();
    assert_eq!(bytes[..4], SCENARIO_BYTES[..4]);
    assert_eq!(bytes[4..8], ((T0 + 1800) as u32).to_be_bytes());
    assert_eq!(bytes[8..], 0xE3B1_399D_C200_504Bu64.to_be_bytes());
    assert_ne!(bytes[8..], SCENARIO_BYTES[8..]);
    assert_eq!(
        Server::decode(time(T0 + 1800), CLIENT_COOKIE, &bytes, &[b"s1"]),
        Ok(fresh)
    );
}

#[test]
fn regenerate_signs_with_the_live_secret() {
    let s = cookie_at(T0, b"s1");
    let fresh = s.regenerate(time(T0 + 7200), b"s2");
    assert_eq!(fresh, cookie_at(T0 + 7200, b"s2"));
    let bytes = fresh.encode();
    assert_eq!(
        Server::decode(time(T0 + 7200), CLIENT_COOKIE, &bytes, &[b"s2", b"s1"]),
        Ok(fresh)
    );
    assert_eq!(
        Server::decode(time(T0 + 7200), CLIENT_COOKIE, &bytes, &[b"s1"]),
        Err(Error::InvalidHash)
    );
}

#[test]
fn regenerate_keeps_the_reserved_field_and_the_client_cookie() {
    let s = Server::new(
        Version::One,
        Algorithm::SipHash24,
        0xBEEF,
        time(T0),
        [9, 8, 7, 6, 5, 4, 3, 2],
        b"old",
    );
    let fresh = s.regenerate(time(T0 + 1800), b"rotate");
    assert_eq!(
        fresh.encode(),
        [
            0x01, 0x04, 0xBE, 0xEF, 0x63, 0xB0, 0xD4, 0x08, 0xD2, 0xE1, 0xC0, 0x31, 0x52, 0x09,
            0xAA, 0x78
        ]
    );
}

#[test]
fn the_wire_timestamp_is_truncated_to_32_bits() {
    let wrapped = cookie_at((1i64 << 32) + 5, b"s1");
    let plain = cookie_at(5, b"s1");
    assert_eq!(wrapped.encode(), plain.encode());
    assert_eq!(plain.encode()[4..8], [0u8, 0, 0, 5]);
    assert_eq!(plain.encode()[8..], 0x0628_AE86_6A05_2AAAu64.to_be_bytes());
    assert_ne!(wrapped, plain);
    assert_eq!(
        Server::decode(time(5), CLIENT_COOKIE, &wrapped.encode(), &[b"s1"]),
        Ok(plain)
    );
}

#[test]
fn the_reserved_field_passes_through() {
    for reserved in [0u16, 1, 0x8000, 0xFFFF] {
        let s = Server::new(
            Version::One,
            Algorithm::SipHash24,
            reserved,
            time(T0),
            CLIENT_COOKIE,
            b"s1",
        );
        let bytes = s.encode();
        assert_eq!(bytes[2..4], reserved.to_be_bytes());
        assert_eq!(
            Server::decode(time(T0), CLIENT_COOKIE, &bytes, &[b"s1"]),
            Ok(s)
        );
    }
}
