//! The reasons for which a cookie is refused.

use time::error::ComponentRange;
use vstd::prelude::*;
use vstd::string::*;

verus! {

/// The error of the `time` crate for a component out of range. Nothing is
/// known of its contents here: it is carried through to the caller.
#[verifier::external_type_specification]
#[verifier::external_body]
pub struct ExComponentRange(time::error::ComponentRange);

/// The errors returned by this crate.
#[derive(Copy, Clone, Eq, PartialEq, Hash, Debug)]
#[must_use]
pub enum Error {
    /// The server cookie does not have sixteen bytes; holds the length found.
    IncorrectLength(usize),
    /// The timestamp is no calendar time.
    TimestampRange(time::error::ComponentRange),
    /// No secret in use produces the hash that the cookie carries.
    InvalidHash,
    /// The cookie is more than an hour old.
    Expired,
    /// The cookie is dated more than five minutes ahead.
    TimeTravellor,
    /// The version byte is none that is defined.
    UnknownVersion(u8),
    /// The algorithm byte is none that is defined.
    UnknownAlgorithm(u8),
    /// The algorithm is defined, and not supported here; holds its name.
    UnsupportedAlgorithm(&'static str),
}

/// The character that stands for a number below ten.
pub open spec fn digit(d: nat) -> char
    recommends
        d < 10,
{
    if d == 0 {
        '0'
    } else if d == 1 {
        '1'
    } else if d == 2 {
        '2'
    } else if d == 3 {
        '3'
    } else if d == 4 {
        '4'
    } else if d == 5 {
        '5'
    } else if d == 6 {
        '6'
    } else if d == 7 {
        '7'
    } else if d == 8 {
        '8'
    } else {
        '9'
    }
}

/// The digits of `n` in base ten, without a leading zero.
pub open spec fn decimal(n: nat) -> Seq<char>
    decreases n,
{
    if n < 10 {
        seq![digit(n)]
    } else {
        decimal(n / 10).push(digit(n % 10))
    }
}

fn digit_text(d: u64) -> (text: &'static str)
    requires
        d < 10,
    ensures
        text@ == seq![digit(d as nat)],
{
    proof {
        reveal_strlit("0");
        reveal_strlit("1");
        reveal_strlit("2");
        reveal_strlit("3");
        reveal_strlit("4");
        reveal_strlit("5");
        reveal_strlit("6");
        reveal_strlit("7");
        reveal_strlit("8");
        reveal_strlit("9");
    }
    if d == 0 {
        "0"
    } else if d == 1 {
        "1"
    } else if d == 2 {
        "2"
    } else if d == 3 {
        "3"
    } else if d == 4 {
        "4"
    } else if d == 5 {
        "5"
    } else if d == 6 {
        "6"
    } else if d == 7 {
        "7"
    } else if d == 8 {
        "8"
    } else {
        "9"
    }
}

fn append_decimal(text: &mut String, n: u64)
    ensures
        final(text)@ == old(text)@ + decimal(n as nat),
    decreases n,
{
    if n >= 10 {
        append_decimal(text, n / 10);
    }
    text.append(digit_text(n % 10));
}

/// Formats an error of the `time` crate with its own `Display`. The text is
/// the crate's to choose: nothing is claimed of it.
#[verifier::external_body]
fn component_range_text(error: &ComponentRange) -> (text: String) {
    format!("{}", error)
}

impl Error {
    /// The message of this error, where this crate words it. The message
    /// of a timestamp out of range is worded by the `time` crate.
    pub open spec fn message(self) -> Option<Seq<char>> {
        match self {
            Error::IncorrectLength(len) => Some(
                "cookie has an incorrect length ("@ + decimal(len as nat) + ")"@,
            ),
            Error::TimestampRange(_) => None,
            Error::InvalidHash => Some("cookie has an invalid hash"@),
            Error::Expired => Some("cookie has expired"@),
            Error::TimeTravellor => Some("cookie has a timestamp from the future"@),
            Error::UnknownVersion(version) => Some(
                "cookie has an unknown version ("@ + decimal(version as nat) + ")"@,
            ),
            Error::UnknownAlgorithm(algorithm) => Some(
                "cookie has an unknown algorithm ("@ + decimal(algorithm as nat) + ")"@,
            ),
            Error::UnsupportedAlgorithm(algorithm) => Some(
                "cookie has an unsupported algorithm ("@ + algorithm@ + ")"@,
            ),
        }
    }

    /// A message for a human reader, for the caller's log.
    pub fn to_string(&self) -> (text: String)
        ensures
            self.message() matches Some(message) ==> text@ == message,
    {
        match self {
            Error::IncorrectLength(len) => {
                let mut text = String::from_str("cookie has an incorrect length (");
                append_decimal(&mut text, *len as u64);
                text.append(")");
                text
            },
            Error::TimestampRange(error) => component_range_text(error),
            Error::InvalidHash => String::from_str("cookie has an invalid hash"),
            Error::Expired => String::from_str("cookie has expired"),
            Error::TimeTravellor => String::from_str("cookie has a timestamp from the future"),
            Error::UnknownVersion(version) => {
                let mut text = String::from_str("cookie has an unknown version (");
                append_decimal(&mut text, *version as u64);
                text.append(")");
                text
            },
            Error::UnknownAlgorithm(algorithm) => {
                let mut text = String::from_str("cookie has an unknown algorithm (");
                append_decimal(&mut text, *algorithm as u64);
                text.append(")");
                text
            },
            Error::UnsupportedAlgorithm(algorithm) => {
                let mut text = String::from_str("cookie has an unsupported algorithm (");
                text.append(algorithm);
                text.append(")");
                text
            },
        }
    }
}

} // verus!
