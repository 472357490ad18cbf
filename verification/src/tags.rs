//! The two tags at the head of a server cookie: format version and hash
//! algorithm, each one byte on the wire.

use crate::error::Error;
use vstd::prelude::*;
use vstd::std_specs::convert::TryFromSpecImpl;

verus! {

/// Prescribes the structure of a cookie and the formula of its hash.
#[derive(Copy, Clone, Eq, PartialEq, Ord, PartialOrd, Hash, Debug)]
#[must_use]
pub enum Version {
    /// The first and only version.
    One,
}

impl Version {
    /// The byte that stands for this version on the wire.
    pub open spec fn spec_code(self) -> u8 {
        1
    }

    /// What `byte` means as a version.
    pub open spec fn spec_parse(byte: u8) -> Result<Version, Error> {
        if byte == 1 {
            Ok(Version::One)
        } else {
            Err(Error::UnknownVersion(byte))
        }
    }

    /// The byte that stands for this version on the wire.
    #[verifier::when_used_as_spec(spec_code)]
    pub fn code(self) -> (byte: u8)
        ensures
            byte == self.spec_code(),
    {
        match self {
            Version::One => 1,
        }
    }

    /// Reads a version byte: 1 is version one, every other byte is
    /// refused as unknown.
    pub fn parse(byte: u8) -> (r: Result<Version, Error>)
        ensures
            r == Self::spec_parse(byte),
    {
        if byte == Version::One.code() {
            Ok(Version::One)
        } else {
            Err(Error::UnknownVersion(byte))
        }
    }
}

impl TryFrom<u8> for Version {
    type Error = Error;

    fn try_from(version: u8) -> (r: Result<Self, Self::Error>) {
        Version::parse(version)
    }
}

impl TryFromSpecImpl<u8> for Version {
    open spec fn obeys_try_from_spec() -> bool {
        true
    }

    open spec fn try_from_spec(version: u8) -> Result<Self, Self::Error> {
        Version::spec_parse(version)
    }
}

/// Defines what function calculates the hash of a cookie.
#[derive(Copy, Clone, Eq, PartialEq, Ord, PartialOrd, Hash, Debug)]
#[must_use]
pub enum Algorithm {
    /// SipHash-2-4, the one algorithm in use.
    SipHash24,
}

impl Algorithm {
    /// The byte that stands for this algorithm on the wire.
    pub open spec fn spec_code(self) -> u8 {
        4
    }

    /// What `byte` means as an algorithm. The bytes 1, 2 and 3 stand for
    /// algorithms that were defined once and are refused by name.
    pub open spec fn spec_parse(byte: u8) -> Result<Algorithm, Error> {
        if byte == 4 {
            Ok(Algorithm::SipHash24)
        } else if byte == 1 {
            Err(Error::UnsupportedAlgorithm("FNV"))
        } else if byte == 2 {
            Err(Error::UnsupportedAlgorithm("HMAC-SHA-256-64"))
        } else if byte == 3 {
            Err(Error::UnsupportedAlgorithm("AES"))
        } else {
            Err(Error::UnknownAlgorithm(byte))
        }
    }

    /// The byte that stands for this algorithm on the wire.
    #[verifier::when_used_as_spec(spec_code)]
    pub fn code(self) -> (byte: u8)
        ensures
            byte == self.spec_code(),
    {
        match self {
            Algorithm::SipHash24 => 4,
        }
    }

    /// Reads an algorithm byte: 4 is SipHash-2-4; 1, 2 and 3 are refused
    /// as unsupported, by the names "FNV", "HMAC-SHA-256-64" and "AES";
    /// every other byte is refused as unknown.
    pub fn parse(byte: u8) -> (r: Result<Algorithm, Error>)
        ensures
            r == Self::spec_parse(byte),
    {
        if byte == Algorithm::SipHash24.code() {
            Ok(Algorithm::SipHash24)
        } else if byte == 1 {
            Err(Error::UnsupportedAlgorithm("FNV"))
        } else if byte == 2 {
            Err(Error::UnsupportedAlgorithm("HMAC-SHA-256-64"))
        } else if byte == 3 {
            Err(Error::UnsupportedAlgorithm("AES"))
        } else {
            Err(Error::UnknownAlgorithm(byte))
        }
    }
}

impl TryFrom<u8> for Algorithm {
    type Error = Error;

    fn try_from(algorithm: u8) -> (r: Result<Self, Self::Error>) {
        Algorithm::parse(algorithm)
    }
}

impl TryFromSpecImpl<u8> for Algorithm {
    open spec fn obeys_try_from_spec() -> bool {
        true
    }

    open spec fn try_from_spec(algorithm: u8) -> Result<Self, Self::Error> {
        Algorithm::spec_parse(algorithm)
    }
}

} // verus!
