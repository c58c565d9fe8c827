//! Version of the protocol.
use bytes::BytesMut;
use crate::text::{decimal, decimal_text, widen};
use std::cmp::Ordering;
use super::buf::{put_u16, written};
use super::encode::Encode;
use super::wire::u16_be;
use vstd::prelude::*;
use vstd::string::StringExecFns;

verus! {

broadcast use crate::frame::wire::group_be_len;

/// Version number of the RSocket protocol.
#[derive(Debug, Clone, Copy, PartialEq, Eq, Ord, Structural)]
pub struct Version {
    pub major: u16,
    pub minor: u16,
}

impl Version {
    /// Builds the protocol version with the given `major` and `minor` number.
    pub fn new(major: u16, minor: u16) -> (r: Version)
        ensures
            r == (Version { major, minor }),
    {
        Version { major, minor }
    }

    /// Returns the `major` number of this version.
    pub fn major(self) -> (r: u16)
        ensures
            r == self.major,
    {
        self.major
    }

    /// Returns the `minor` number of this version.
    pub fn minor(self) -> (r: u16)
        ensures
            r == self.minor,
    {
        self.minor
    }
}

impl Version {
    /// The version as text: the major number, a dot, the minor number.
    pub open spec fn text(self) -> Seq<char> {
        decimal_text(self.major as nat) + "."@ + decimal_text(self.minor as nat)
    }

    /// How `self` stands to `other`: by the major numbers, and by the minor
    /// numbers where those are the same.
    pub open spec fn order(self, other: Version) -> Ordering {
        if self.major < other.major {
            Ordering::Less
        } else if self.major > other.major {
            Ordering::Greater
        } else if self.minor < other.minor {
            Ordering::Less
        } else if self.minor > other.minor {
            Ordering::Greater
        } else {
            Ordering::Equal
        }
    }

    /// Returns the version as text, such as `1.0`.
    pub fn to_string(&self) -> (r: String)
        ensures
            r@ == self.text(),
    {
        let mut text = decimal(self.major_number());
        text.append(".");
        text.append(decimal(self.minor_number()).as_str());
        text
    }

    /// The major number, widened.
    fn major_number(&self) -> (r: u32)
        ensures
            r == self.major,
    {
        widen(self.major)
    }

    /// The minor number, widened.
    fn minor_number(&self) -> (r: u32)
        ensures
            r == self.minor,
    {
        widen(self.minor)
    }
}

impl vstd::std_specs::cmp::PartialOrdSpecImpl for Version {
    open spec fn obeys_partial_cmp_spec() -> bool {
        true
    }

    open spec fn partial_cmp_spec(&self, other: &Version) -> Option<Ordering> {
        Some(self.order(*other))
    }
}

impl PartialOrd for Version {
    /// Versions are ordered by their major numbers, and by their minor
    /// numbers where those are the same.
    fn partial_cmp(&self, other: &Version) -> (r: Option<Ordering>) {
        if self.major < other.major {
            Some(Ordering::Less)
        } else if self.major > other.major {
            Some(Ordering::Greater)
        } else if self.minor < other.minor {
            Some(Ordering::Less)
        } else if self.minor > other.minor {
            Some(Ordering::Greater)
        } else {
            Some(Ordering::Equal)
        }
    }
}

impl Encode for Version {
    /// The major number, then the minor number, two bytes each.
    open spec fn wire(&self) -> Seq<u8> {
        u16_be(self.major) + u16_be(self.minor)
    }

    open spec fn encodable(&self) -> bool {
        true
    }

    fn encode(&self, buf: &mut BytesMut) {
        put_u16(buf, self.major);
        put_u16(buf, self.minor);
        assert(written(*buf) =~= written(*old(buf)) + self.wire());
    }

    fn encoded_len(&self) -> Option<usize> {
        Some(4)
    }

    fn len(&self) -> usize {
        4
    }
}

impl Default for Version {
    /// Version 1.0.
    fn default() -> (r: Version)
        ensures
            r == (Version { major: 1, minor: 0 }),
    {
        Version::new(1, 0)
    }
}

} // verus!
