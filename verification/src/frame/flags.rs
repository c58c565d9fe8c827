//! Frame types and header flags.
use vstd::prelude::*;

verus! {

/// Type of frame.
#[non_exhaustive]
#[allow(non_camel_case_types)]
#[allow(clippy::upper_case_acronyms)]
#[derive(Debug, Clone, Copy, PartialEq, Eq, Structural)]
pub enum FrameType {
    /// Sent by client to initiate protocol processing.
    SETUP,
    /// Sent by Responder to grant the ability to send requests.
    LEASE,
    /// Connection keepalive.
    KEEPALIVE,
    /// Request single response.
    REQUEST_RESPONSE,
    /// A single one-way message.
    REQUEST_FNF,
    /// Request a completable stream.
    REQUEST_STREAM,
    /// Request a completable stream in both directions.
    REQUEST_CHANNEL,
    /// Request N more items with Reactive Streams semantics.
    REQUEST_N,
    /// Cancel outstanding request.
    CANCEL,
    /// Payload on a stream. For example, response to a request, or message on a channel.
    PAYLOAD,
    /// Error at connection or application level.
    ERROR,
    /// Asynchronous Metadata frame
    METADATA_PUSH,
    /// Replaces SETUP for Resuming Operation (optional)
    RESUME,
    /// Sent in response to a RESUME if resuming operation possible (optional)
    RESUME_OK,
    /// Used To Extend more frame types as well as extensions.
    EXT,
}

impl FrameType {
    /// The raw value that the protocol assigns to this frame type.
    pub open spec fn spec_value(self) -> u16 {
        match self {
            FrameType::SETUP => 0x01,
            FrameType::LEASE => 0x02,
            FrameType::KEEPALIVE => 0x03,
            FrameType::REQUEST_RESPONSE => 0x04,
            FrameType::REQUEST_FNF => 0x05,
            FrameType::REQUEST_STREAM => 0x06,
            FrameType::REQUEST_CHANNEL => 0x07,
            FrameType::REQUEST_N => 0x08,
            FrameType::CANCEL => 0x09,
            FrameType::PAYLOAD => 0x0A,
            FrameType::ERROR => 0x0B,
            FrameType::METADATA_PUSH => 0x0C,
            FrameType::RESUME => 0x0D,
            FrameType::RESUME_OK => 0x0E,
            FrameType::EXT => 0x3F,
        }
    }

    /// The frame type with raw value `val`, if there is one.
    pub open spec fn spec_from_value(val: u16) -> Option<FrameType> {
        if val == 0x01 {
            Some(FrameType::SETUP)
        } else if val == 0x02 {
            Some(FrameType::LEASE)
        } else if val == 0x03 {
            Some(FrameType::KEEPALIVE)
        } else if val == 0x04 {
            Some(FrameType::REQUEST_RESPONSE)
        } else if val == 0x05 {
            Some(FrameType::REQUEST_FNF)
        } else if val == 0x06 {
            Some(FrameType::REQUEST_STREAM)
        } else if val == 0x07 {
            Some(FrameType::REQUEST_CHANNEL)
        } else if val == 0x08 {
            Some(FrameType::REQUEST_N)
        } else if val == 0x09 {
            Some(FrameType::CANCEL)
        } else if val == 0x0A {
            Some(FrameType::PAYLOAD)
        } else if val == 0x0B {
            Some(FrameType::ERROR)
        } else if val == 0x0C {
            Some(FrameType::METADATA_PUSH)
        } else if val == 0x0D {
            Some(FrameType::RESUME)
        } else if val == 0x0E {
            Some(FrameType::RESUME_OK)
        } else if val == 0x3F {
            Some(FrameType::EXT)
        } else {
            None
        }
    }

    /// The header word that holds this frame type in its six high bits and
    /// no flag.
    pub open spec fn spec_bits(self) -> u16 {
        (self.spec_value() * 0x400) as u16
    }

    /// Specify the frame type with its raw value. This will return `None` if
    /// the given raw value is unrecognized.
    pub fn from_value(val: u16) -> (r: Option<FrameType>)
        ensures
            r == FrameType::spec_from_value(val),
            r matches Some(t) ==> t.spec_value() == val,
            r is None ==> forall|t: FrameType| t.spec_value() != val,
    {
        match val {
            0x01 => Some(FrameType::SETUP),
            0x02 => Some(FrameType::LEASE),
            0x03 => Some(FrameType::KEEPALIVE),
            0x04 => Some(FrameType::REQUEST_RESPONSE),
            0x05 => Some(FrameType::REQUEST_FNF),
            0x06 => Some(FrameType::REQUEST_STREAM),
            0x07 => Some(FrameType::REQUEST_CHANNEL),
            0x08 => Some(FrameType::REQUEST_N),
            0x09 => Some(FrameType::CANCEL),
            0x0A => Some(FrameType::PAYLOAD),
            0x0B => Some(FrameType::ERROR),
            0x0C => Some(FrameType::METADATA_PUSH),
            0x0D => Some(FrameType::RESUME),
            0x0E => Some(FrameType::RESUME_OK),
            0x3F => Some(FrameType::EXT),
            _ => None,
        }
    }

    /// Convert from a header word: its six high bits name the frame type, if
    /// they hold a recognized value.
    ///
    /// ```text
    /// 0                   1                   2                   3
    /// 0 1 2 3 4 5 6 7 8 9 0 1 2 3 4 5 6 7 8 9 0 1 2 3 4 5 6 7 8 9 0 1
    /// +-----------+-+-+-+-+-----------+-------------------------------+
    /// |Frame Type |I|M|     Flags     |
    /// +-----------+-+-+-+-+-----------+-------------------------------+
    /// ```
    pub fn from_bits(bits: u16) -> (r: Option<FrameType>)
        ensures
            r == FrameType::spec_from_value(bits / 0x400),
    {
        proof {
            lemma_flag_sets(bits, 0);
        }
        FrameType::from_value(bits >> 10)
    }

    /// Returns the raw value of this frame type.
    pub fn value(self) -> (r: u16)
        ensures
            r == self.spec_value(),
    {
        match self {
            FrameType::SETUP => 0x01,
            FrameType::LEASE => 0x02,
            FrameType::KEEPALIVE => 0x03,
            FrameType::REQUEST_RESPONSE => 0x04,
            FrameType::REQUEST_FNF => 0x05,
            FrameType::REQUEST_STREAM => 0x06,
            FrameType::REQUEST_CHANNEL => 0x07,
            FrameType::REQUEST_N => 0x08,
            FrameType::CANCEL => 0x09,
            FrameType::PAYLOAD => 0x0A,
            FrameType::ERROR => 0x0B,
            FrameType::METADATA_PUSH => 0x0C,
            FrameType::RESUME => 0x0D,
            FrameType::RESUME_OK => 0x0E,
            FrameType::EXT => 0x3F,
        }
    }

    /// Convert this frame type to a header word: the six high bits hold the
    /// raw value of the frame type, the ten low bits are zero.
    pub fn bits(self) -> (r: u16)
        ensures
            r == self.spec_bits(),
            r == self.spec_value() * 0x400,
    {
        let val = self.value();
        proof {
            lemma_type_bits(val);
        }
        val << 10
    }

    /// Every frame type is found again from its raw value, and from the
    /// header word that holds it.
    pub proof fn lemma_value_round_trip(self)
        ensures
            FrameType::spec_from_value(self.spec_value()) == Some(self),
            1 <= self.spec_value() <= 0x3F,
            self.spec_bits() == self.spec_value() * 0x400,
            self.spec_bits() / 0x400 == self.spec_value(),
    {
    }
}

/// The bit of the `IGNORE` flag.
pub const IGNORE_BIT: u16 = 0x100;

/// The bit of the `METADATA` flag.
pub const METADATA_BIT: u16 = 0x080;

/// The bit shared by the flags `FOLLOWS`, `RESUME` and `RESPOND`.
pub const FOLLOWS_BIT: u16 = 0x040;

/// The bit shared by the flags `COMPLETE` and `LEASE`.
pub const COMPLETE_BIT: u16 = 0x020;

/// The bit of the `NEXT` flag.
pub const NEXT_BIT: u16 = 0x010;

/// All the bits that stand for a flag.
pub const FLAG_BITS: u16 = 0x1F0;

/// Whether `bits` holds nothing outside the bits that stand for a flag.
pub open spec fn only_flag_bits(bits: u16) -> bool {
    bits & FLAG_BITS == bits
}

/// What the flag bits are to one another.
pub proof fn lemma_flag_constants()
    by (bit_vector)
    ensures
        0u16 & 0x1F0u16 == 0u16,
        0x1F0u16 & 0x1F0u16 == 0x1F0u16,
        0x100u16 & 0x1F0u16 == 0x100u16,
        0x080u16 & 0x1F0u16 == 0x080u16,
        0x040u16 & 0x1F0u16 == 0x040u16,
        0x020u16 & 0x1F0u16 == 0x020u16,
        0x010u16 & 0x1F0u16 == 0x010u16,
        0x0C0u16 & 0x1F0u16 == 0x0C0u16,
        0x040u16 | 0x080u16 == 0x0C0u16,
        0x040u16 | 0u16 == 0x040u16,
        0u16 | 0x080u16 == 0x080u16,
        0u16 | 0x040u16 == 0x040u16,
        0u16 | 0u16 == 0u16,
        0x0C0u16 & 0x040u16 == 0x040u16,
        0x0C0u16 & 0x080u16 == 0x080u16,
        0x040u16 & 0x040u16 == 0x040u16,
        0x040u16 & 0x080u16 == 0u16,
        0x080u16 & 0x040u16 == 0u16,
        0x080u16 & 0x080u16 == 0x080u16,
        0u16 & 0x040u16 == 0u16,
        0u16 & 0x080u16 == 0u16,
{
}

/// Sets of flags are closed under union and intersection, and a header
/// word splits at its tenth bit.
pub proof fn lemma_flag_sets(a: u16, b: u16)
    by (bit_vector)
    ensures
        a & 0x1F0u16 == a && b & 0x1F0u16 == b ==> (a | b) & 0x1F0u16 == a | b,
        a & 0x1F0u16 == a ==> (a & b) & 0x1F0u16 == a & b,
        (a & 0x1F0u16) & 0x1F0u16 == a & 0x1F0u16,
        a | 0u16 == a,
        a >> 10u16 == a / 0x400u16,
{
}

/// A raw frame type moves into the six high bits of the header word.
pub proof fn lemma_type_bits(val: u16)
    by (bit_vector)
    ensures
        val <= 0x3Fu16 ==> val << 10u16 == val * 0x400u16,
{
}

/// The flags of a request frame: FOLLOWS where more fragments follow,
/// METADATA where the payload has metadata.
pub open spec fn request_flags(follows: bool, has_metadata: bool) -> u16 {
    if follows {
        if has_metadata {
            0x0C0
        } else {
            FOLLOWS_BIT
        }
    } else {
        if has_metadata {
            METADATA_BIT
        } else {
            0
        }
    }
}

/// The flags of a request frame are what the union of its flags gives.
pub proof fn lemma_request_flags(follows: bool, has_metadata: bool)
    ensures
        request_flags(follows, has_metadata) == (if follows {
            FOLLOWS_BIT
        } else {
            0
        }) | (if has_metadata {
            METADATA_BIT
        } else {
            0
        }),
        request_flags(follows, has_metadata) == (0u16 | (if follows {
            FOLLOWS_BIT
        } else {
            0
        })) | (if has_metadata {
            METADATA_BIT
        } else {
            0
        }),
        request_flags(follows, false) == 0u16 | (if follows {
            FOLLOWS_BIT
        } else {
            0
        }),
        request_flags(follows, has_metadata) & FOLLOWS_BIT == FOLLOWS_BIT <==> follows,
        request_flags(follows, has_metadata) & METADATA_BIT == METADATA_BIT <==> has_metadata,
        only_flag_bits(request_flags(follows, has_metadata)),
{
    lemma_flag_constants();
}

/// Frame header flags: a set over the five flag bits of the header word.
/// The same bit stands for different flags in different frame types.
#[derive(Debug, Clone, Copy, PartialEq, Eq)]
pub struct Flags(u16);

impl View for Flags {
    type V = u16;

    closed spec fn view(&self) -> u16 {
        self.0
    }
}

impl vstd::std_specs::ops::BitOrSpecImpl for Flags {
    open spec fn obeys_bitor_spec() -> bool {
        true
    }

    open spec fn bitor_req(self, rhs: Flags) -> bool {
        true
    }

    closed spec fn bitor_spec(self, rhs: Flags) -> Flags {
        Flags(self.0 | rhs.0)
    }
}

impl core::ops::BitOr for Flags {
    type Output = Flags;

    /// The flags set in either operand.
    fn bitor(self, rhs: Flags) -> (r: Flags)
        ensures
            r@ == self@ | rhs@,
            only_flag_bits(r@),
    {
        self.union(rhs)
    }
}

impl vstd::std_specs::ops::BitAndSpecImpl for Flags {
    open spec fn obeys_bitand_spec() -> bool {
        true
    }

    open spec fn bitand_req(self, rhs: Flags) -> bool {
        true
    }

    closed spec fn bitand_spec(self, rhs: Flags) -> Flags {
        Flags(self.0 & rhs.0)
    }
}

impl core::ops::BitAnd for Flags {
    type Output = Flags;

    /// The flags set in both operands.
    fn bitand(self, rhs: Flags) -> (r: Flags)
        ensures
            r@ == self@ & rhs@,
            only_flag_bits(r@),
    {
        self.intersection(rhs)
    }
}

impl Flags {
    #[verifier::type_invariant]
    spec fn inv(self) -> bool {
        self.0 & FLAG_BITS == self.0
    }

    /// No flag.
    pub fn empty() -> (r: Flags)
        ensures
            r@ == 0,
            only_flag_bits(r@),
    {
        proof {
            lemma_flag_constants();
        }
        Flags(0)
    }

    /// All flags.
    pub fn all() -> (r: Flags)
        ensures
            r@ == FLAG_BITS,
            only_flag_bits(r@),
    {
        proof {
            lemma_flag_constants();
        }
        Flags(FLAG_BITS)
    }

    /// The frame can be ignored.
    pub fn ignore() -> (r: Flags)
        ensures
            r@ == IGNORE_BIT,
            only_flag_bits(r@),
    {
        proof {
            lemma_flag_constants();
        }
        Flags(IGNORE_BIT)
    }

    /// Metadata present.
    pub fn metadata() -> (r: Flags)
        ensures
            r@ == METADATA_BIT,
            only_flag_bits(r@),
    {
        proof {
            lemma_flag_constants();
        }
        Flags(METADATA_BIT)
    }

    /// More fragments follow this fragment.
    pub fn follows() -> (r: Flags)
        ensures
            r@ == FOLLOWS_BIT,
            only_flag_bits(r@),
    {
        proof {
            lemma_flag_constants();
        }
        Flags(FOLLOWS_BIT)
    }

    /// Client requests resume capability if possible.
    pub fn resume() -> (r: Flags)
        ensures
            r@ == FOLLOWS_BIT,
            only_flag_bits(r@),
    {
        Flags::follows()
    }

    /// Respond with KEEPALIVE.
    pub fn respond() -> (r: Flags)
        ensures
            r@ == FOLLOWS_BIT,
            only_flag_bits(r@),
    {
        Flags::follows()
    }

    /// Bit to indicate stream completion.
    pub fn complete() -> (r: Flags)
        ensures
            r@ == COMPLETE_BIT,
            only_flag_bits(r@),
    {
        proof {
            lemma_flag_constants();
        }
        Flags(COMPLETE_BIT)
    }

    /// Will honor LEASE.
    pub fn lease() -> (r: Flags)
        ensures
            r@ == COMPLETE_BIT,
            only_flag_bits(r@),
    {
        Flags::complete()
    }

    /// Bit to indicate Next (Payload Data and/or Metadata present).
    pub fn next() -> (r: Flags)
        ensures
            r@ == NEXT_BIT,
            only_flag_bits(r@),
    {
        proof {
            lemma_flag_constants();
        }
        Flags(NEXT_BIT)
    }

    /// The flags as the bits of a header word.
    pub fn bits(&self) -> (r: u16)
        ensures
            r == self@,
            only_flag_bits(r),
    {
        proof {
            use_type_invariant(self);
        }
        self.0
    }

    /// The flags that the bits of a header word stand for; bits that stand
    /// for no flag are dropped.
    pub fn from_bits_truncate(bits: u16) -> (r: Flags)
        ensures
            r@ == bits & FLAG_BITS,
            only_flag_bits(r@),
    {
        proof {
            lemma_flag_sets(bits, 0);
        }
        Flags(bits & FLAG_BITS)
    }

    /// Returns true if every flag of `other` is set in `self`.
    pub fn contains(&self, other: Flags) -> (r: bool)
        ensures
            r == (self@ & other@ == other@),
    {
        self.0 & other.0 == other.0
    }

    /// The flags set in `self` or in `other`.
    pub fn union(self, other: Flags) -> (r: Flags)
        ensures
            r@ == self@ | other@,
            only_flag_bits(r@),
    {
        proof {
            use_type_invariant(&self);
            use_type_invariant(&other);
        }
        let a = self.0;
        let b = other.0;
        proof {
            lemma_flag_sets(a, b);
        }
        Flags(a | b)
    }

    /// The flags set in both `self` and `other`.
    pub fn intersection(self, other: Flags) -> (r: Flags)
        ensures
            r@ == self@ & other@,
            only_flag_bits(r@),
    {
        proof {
            use_type_invariant(&self);
        }
        let a = self.0;
        let b = other.0;
        proof {
            lemma_flag_sets(a, b);
        }
        Flags(a & b)
    }

    /// Returns true if the Flags have the IGNORE bit set.
    pub fn is_ignore(&self) -> (r: bool)
        ensures
            r == (self@ & IGNORE_BIT == IGNORE_BIT),
    {
        self.0 & IGNORE_BIT == IGNORE_BIT
    }

    /// Returns true if the Flags have the METADATA bit set.
    pub fn is_metadata(&self) -> (r: bool)
        ensures
            r == (self@ & METADATA_BIT == METADATA_BIT),
    {
        self.0 & METADATA_BIT == METADATA_BIT
    }

    /// Returns true if the Flags have the FOLLOWS bit set.
    pub fn is_follows(&self) -> (r: bool)
        ensures
            r == (self@ & FOLLOWS_BIT == FOLLOWS_BIT),
    {
        self.0 & FOLLOWS_BIT == FOLLOWS_BIT
    }

    /// Returns true if the Flags have the RESUME bit set.
    pub fn is_resume(&self) -> (r: bool)
        ensures
            r == (self@ & FOLLOWS_BIT == FOLLOWS_BIT),
    {
        self.0 & FOLLOWS_BIT == FOLLOWS_BIT
    }

    /// Returns true if the Flags have the RESPOND bit set.
    pub fn is_respond(&self) -> (r: bool)
        ensures
            r == (self@ & FOLLOWS_BIT == FOLLOWS_BIT),
    {
        self.0 & FOLLOWS_BIT == FOLLOWS_BIT
    }

    /// Returns true if the Flags have the COMPLETE bit set.
    pub fn is_complete(&self) -> (r: bool)
        ensures
            r == (self@ & COMPLETE_BIT == COMPLETE_BIT),
    {
        self.0 & COMPLETE_BIT == COMPLETE_BIT
    }

    /// Returns true if the Flags have the LEASE bit set.
    pub fn is_lease(&self) -> (r: bool)
        ensures
            r == (self@ & COMPLETE_BIT == COMPLETE_BIT),
    {
        self.0 & COMPLETE_BIT == COMPLETE_BIT
    }

    /// Returns true if the Flags have the NEXT bit set.
    pub fn is_next(&self) -> (r: bool)
        ensures
            r == (self@ & NEXT_BIT == NEXT_BIT),
    {
        self.0 & NEXT_BIT == NEXT_BIT
    }
}

} // verus!
