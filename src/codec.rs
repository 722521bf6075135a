//! The RTDE frame codec.
//!
//! Every field on the wire is big-endian and of fixed width. A frame starts
//! with a three byte header: the total frame size as a `u16` (the header's own
//! three bytes included), then a one byte package type tag.

use vstd::prelude::*;

use crate::error::Error;

verus! {

/// The two big-endian bytes of `v`.
pub open spec fn u16_be(v: u16) -> Seq<u8> {
    seq![(v >> 8u16) as u8, v as u8]
}

/// The `u16` whose big-endian bytes are `hi`, `lo`.
pub open spec fn u16_from_be(hi: u8, lo: u8) -> u16 {
    ((hi as u16) << 8u16) | (lo as u16)
}

/// The `u32` whose big-endian bytes are the four bytes of `b` from `at` on.
pub open spec fn u32_from_be(b: Seq<u8>, at: int) -> u32 {
    ((b[at] as u32) << 24u32) | ((b[at + 1] as u32) << 16u32) | ((b[at + 2] as u32) << 8u32) | (
    b[at + 3] as u32)
}

/// The eight big-endian bytes of `v`.
pub open spec fn u64_be(v: u64) -> Seq<u8> {
    seq![
        (v >> 56u64) as u8,
        (v >> 48u64) as u8,
        (v >> 40u64) as u8,
        (v >> 32u64) as u8,
        (v >> 24u64) as u8,
        (v >> 16u64) as u8,
        (v >> 8u64) as u8,
        v as u8,
    ]
}

/// Decoding the big-endian bytes of a `u16` gives the `u16` back.
pub proof fn lemma_u16_be_round_trip(v: u16)
    ensures
        u16_be(v).len() == 2,
        u16_from_be(u16_be(v)[0], u16_be(v)[1]) == v,
{
    assert((((((v >> 8u16) as u8) as u16) << 8u16) | ((v as u8) as u16)) == v) by (bit_vector);
}

/// Encoding a decoded `u16` gives its two bytes back.
pub proof fn lemma_u16_from_be_round_trip(hi: u8, lo: u8)
    ensures
        u16_be(u16_from_be(hi, lo)) == seq![hi, lo],
{
    assert(((((hi as u16) << 8u16) | (lo as u16)) >> 8u16) as u8 == hi) by (bit_vector);
    assert(((((hi as u16) << 8u16) | (lo as u16)) as u8) == lo) by (bit_vector);
    assert(u16_be(u16_from_be(hi, lo)) =~= seq![hi, lo]);
}

/// The big-endian bytes of `v`.
pub fn u16_to_be(v: u16) -> (r: [u8; 2])
    ensures
        r@ == u16_be(v),
{
    let r = [(v >> 8u16) as u8, v as u8];
    assert(r@ =~= u16_be(v));
    r
}

/// The big-endian bytes of `v`.
pub fn u64_to_be(v: u64) -> (r: [u8; 8])
    ensures
        r@ == u64_be(v),
{
    let r = [
        (v >> 56u64) as u8,
        (v >> 48u64) as u8,
        (v >> 40u64) as u8,
        (v >> 32u64) as u8,
        (v >> 24u64) as u8,
        (v >> 16u64) as u8,
        (v >> 8u64) as u8,
        v as u8,
    ];
    assert(r@ =~= u64_be(v));
    r
}

/// The boolean that a one byte answer holds: 0 is false, 1 is true.
pub open spec fn bool_of(b: Seq<u8>) -> Option<bool> {
    if b.len() == 1 && b[0] == 0 {
        Some(false)
    } else if b.len() == 1 && b[0] == 1 {
        Some(true)
    } else {
        None
    }
}

/// Reads a boolean from exactly one byte.
pub fn decode_bool(b: &[u8]) -> (r: Result<bool, Error>)
    ensures
        bool_of(b@) is Some ==> r == Ok::<bool, Error>(bool_of(b@).unwrap()),
        bool_of(b@) is None ==> r is Err && r->Err_0 is Deserialization,
{
    if b.len() == 1 && b[0] == 0 {
        Ok(false)
    } else if b.len() == 1 && b[0] == 1 {
        Ok(true)
    } else {
        Err(Error::Deserialization("a boolean is one byte, 0 or 1".to_owned()))
    }
}

/// The kind of an RTDE frame, carried in the last header byte.
#[derive(Debug, Clone, Copy, PartialEq, Eq, Structural)]
pub enum PackageType {
    ProtocolVersion,
    URControlVersion,
    Message,
    Data,
    /// Output from the robot.
    SetupOutputs,
    /// Input to the robot.
    SetupInputs,
    Start,
    Pause,
}

impl PackageType {
    /// The wire tag of each package type.
    pub open spec fn spec_tag(self) -> u8 {
        match self {
            PackageType::ProtocolVersion => 86,
            PackageType::URControlVersion => 118,
            PackageType::Message => 77,
            PackageType::Data => 85,
            PackageType::SetupOutputs => 79,
            PackageType::SetupInputs => 73,
            PackageType::Start => 83,
            PackageType::Pause => 80,
        }
    }

    /// The package type whose tag is `b`, if there is one.
    pub open spec fn from_tag(b: u8) -> Option<PackageType> {
        if b == 86 {
            Some(PackageType::ProtocolVersion)
        } else if b == 118 {
            Some(PackageType::URControlVersion)
        } else if b == 77 {
            Some(PackageType::Message)
        } else if b == 85 {
            Some(PackageType::Data)
        } else if b == 79 {
            Some(PackageType::SetupOutputs)
        } else if b == 73 {
            Some(PackageType::SetupInputs)
        } else if b == 83 {
            Some(PackageType::Start)
        } else if b == 80 {
            Some(PackageType::Pause)
        } else {
            None
        }
    }

    /// The wire tag of this package type.
    pub fn tag(&self) -> (r: u8)
        ensures
            r == self.spec_tag(),
    {
        match self {
            PackageType::ProtocolVersion => 86,
            PackageType::URControlVersion => 118,
            PackageType::Message => 77,
            PackageType::Data => 85,
            PackageType::SetupOutputs => 79,
            PackageType::SetupInputs => 73,
            PackageType::Start => 83,
            PackageType::Pause => 80,
        }
    }

    /// The name of this package type.
    pub fn name(&self) -> &'static str {
        match self {
            PackageType::ProtocolVersion => "ProtocolVersion",
            PackageType::URControlVersion => "URControlVersion",
            PackageType::Message => "Message",
            PackageType::Data => "Data",
            PackageType::SetupOutputs => "SetupOutputs",
            PackageType::SetupInputs => "SetupInputs",
            PackageType::Start => "Start",
            PackageType::Pause => "Pause",
        }
    }

    /// The package type tagged `value`; an unknown tag is a decode error.
    pub fn try_from(value: u8) -> (r: Result<PackageType, Error>)
        ensures
            PackageType::from_tag(value) is Some ==> r == Ok::<PackageType, Error>(
                PackageType::from_tag(value).unwrap(),
            ),
            PackageType::from_tag(value) is None ==> r is Err && r->Err_0 is Deserialization,
    {
        match value {
            86 => Ok(PackageType::ProtocolVersion),
            118 => Ok(PackageType::URControlVersion),
            77 => Ok(PackageType::Message),
            85 => Ok(PackageType::Data),
            79 => Ok(PackageType::SetupOutputs),
            73 => Ok(PackageType::SetupInputs),
            83 => Ok(PackageType::Start),
            80 => Ok(PackageType::Pause),
            _ => Err(Error::Deserialization("unknown package type".to_owned())),
        }
    }
}

/// Every tag maps back to its package type, and only the table's bytes are tags.
pub proof fn lemma_tag_round_trip(t: PackageType)
    ensures
        PackageType::from_tag(t.spec_tag()) == Some(t),
{
}

/// The preamble of every frame.
#[derive(Debug, Clone, Copy, PartialEq, Eq, Structural)]
pub struct Header {
    pub package_size: u16,
    pub package_type: PackageType,
}

impl Header {
    /// The three wire bytes of this header.
    pub open spec fn wire(self) -> Seq<u8> {
        u16_be(self.package_size).push(self.package_type.spec_tag())
    }

    /// The header that three bytes read from the wire describe, if their tag is known.
    pub open spec fn decode(b: Seq<u8>) -> Option<Header> {
        if b.len() == 3 && PackageType::from_tag(b[2]) is Some {
            Some(
                Header {
                    package_size: u16_from_be(b[0], b[1]),
                    package_type: PackageType::from_tag(b[2]).unwrap(),
                },
            )
        } else {
            None
        }
    }

    /// A header of `package_type`; without `set_size` it sizes a frame with no payload.
    pub fn new(package_type: PackageType, set_size: Option<u16>) -> (r: Self)
        ensures
            r.package_type == package_type,
            r.package_size == match set_size {
                Some(s) => s,
                None => 3u16,
            },
    {
        let package_size = match set_size {
            Some(s) => s,
            None => 3u16,
        };
        Header { package_size, package_type }
    }

    /// The wire bytes of this header.
    pub fn as_bytes(&self) -> (r: Vec<u8>)
        ensures
            r@ == self.wire(),
    {
        let size = u16_to_be(self.package_size);
        let r = vec![size[0], size[1], self.package_type.tag()];
        assert(r@ =~= self.wire());
        r
    }

    /// Reads a header from exactly three bytes.
    pub fn parse(b: &[u8]) -> (r: Result<Header, Error>)
        ensures
            Header::decode(b@) is Some ==> r == Ok::<Header, Error>(Header::decode(b@).unwrap()),
            Header::decode(b@) is None ==> r is Err && r->Err_0 is Deserialization,
    {
        if b.len() != 3 {
            return Err(Error::Deserialization("a header is three bytes".to_owned()));
        }
        let package_type = PackageType::try_from(b[2])?;
        let package_size = ((b[0] as u16) << 8u16) | (b[1] as u16);
        Ok(Header { package_size, package_type })
    }
}

/// Encoding a header and decoding the bytes gives the same header back.
pub proof fn lemma_header_round_trip(h: Header)
    ensures
        h.wire().len() == 3,
        Header::decode(h.wire()) == Some(h),
{
    lemma_u16_be_round_trip(h.package_size);
    lemma_tag_round_trip(h.package_type);
}

/// Three bytes whose last is no package tag decode to no header.
pub proof fn lemma_unknown_tag_fails(b: Seq<u8>)
    requires
        b.len() == 3,
        PackageType::from_tag(b[2]) is None,
    ensures
        Header::decode(b) is None,
{
}

} // verus!
