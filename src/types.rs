//! The values that RTDE frames carry: framed payloads, protocol versions,
//! log messages, controller versions and negotiated recipes.

use vstd::prelude::*;
use vstd::string::StringSliceAdditionalSpecFns;
use vstd::utf8::encode_utf8;

use crate::codec::{u16_be, u16_to_be, u32_from_be, u64_be, u64_to_be, Header, PackageType};
use crate::data::DataType;
use crate::error::Error;

verus! {

/// Appends `b` to `out`.
pub fn append_bytes(out: &mut Vec<u8>, b: &[u8])
    ensures
        final(out)@ == old(out)@ + b@,
{
    let ghost start = out@;
    let mut i: usize = 0;
    while i < b.len()
        invariant
            i <= b@.len(),
            out@ == start + b@.subrange(0, i as int),
        decreases b@.len() - i,
    {
        out.push(b[i]);
        assert(b@.subrange(0, i + 1) =~= b@.subrange(0, i as int).push(b@[i as int]));
        i = i + 1;
    }
    assert(b@.subrange(0, i as int) =~= b@);
}

/// A frame: its header and the payload bytes after it.
#[derive(Debug, Clone)]
pub struct Payload {
    pub header: Header,
    pub payload: Vec<u8>,
}

impl Payload {
    /// The bytes of the whole frame.
    pub open spec fn wire(self) -> Seq<u8> {
        self.header.wire() + self.payload@
    }

    /// Whether this frame's size field counts exactly its header and payload.
    pub open spec fn sized(self) -> bool {
        self.header.package_size as int == 3 + self.payload@.len()
    }

    /// A frame of `package_type` around `package`.
    ///
    /// With `set_size` the header carries that size; without it, the size of the
    /// whole frame, which fails when that does not fit in the `u16` size field.
    pub fn new(package_type: PackageType, package: Vec<u8>, set_size: Option<u16>) -> (r: Result<
        Self,
        Error,
    >)
        ensures
            r is Ok <==> (set_size is Some || package@.len() + 3 <= u16::MAX),
            r is Ok ==> r->Ok_0.header.package_type == package_type && r->Ok_0.payload@
                == package@ && r->Ok_0.header.package_size == match set_size {
                Some(s) => s,
                None => (package@.len() + 3) as u16,
            },
            r is Err ==> r->Err_0 is Static,
    {
        match set_size {
            Some(size) => Ok(
                Payload {
                    header: Header { package_size: size, package_type },
                    payload: package,
                },
            ),
            None => {
                if package.len() > 65532 {
                    Err(Error::Static("issue setting payload size"))
                } else {
                    let size = (package.len() + 3) as u16;
                    Ok(
                        Payload {
                            header: Header { package_size: size, package_type },
                            payload: package,
                        },
                    )
                }
            },
        }
    }

    /// What type of package this frame holds.
    pub fn get_type(&self) -> (r: PackageType)
        ensures
            r == self.header.package_type,
    {
        self.header.package_type
    }

    /// Whether this frame holds data, which starts with a recipe id.
    pub fn is_data(&self) -> (r: bool)
        ensures
            r == (self.header.package_type == PackageType::Data),
    {
        self.header.package_type == PackageType::Data
    }

    /// The bytes of the whole frame, ready to be written.
    pub fn as_bytes(&self) -> (r: Vec<u8>)
        ensures
            r@ == self.wire(),
    {
        let mut r = self.header.as_bytes();
        append_bytes(&mut r, self.payload.as_slice());
        r
    }

    /// The bytes that encode this frame's value: the payload, without the
    /// leading recipe id in a data frame.
    pub fn value_bytes(&self) -> (r: Result<Vec<u8>, Error>)
        ensures
            self.header.package_type != PackageType::Data ==> r is Ok && r->Ok_0@
                == self.payload@,
            self.header.package_type == PackageType::Data && self.payload@.len() > 0 ==> r is Ok
                && r->Ok_0@ == self.payload@.drop_first(),
            self.header.package_type == PackageType::Data && self.payload@.len() == 0 ==> r is Err
                && r->Err_0 is Deserialization,
    {
        if self.is_data() {
            if self.payload.len() == 0 {
                return Err(Error::Deserialization("data without a recipe id".to_owned()));
            }
            let mut r: Vec<u8> = Vec::new();
            append_bytes(&mut r, vstd::slice::slice_subrange(self.payload.as_slice(), 1, self.payload.len()));
            assert(r@ =~= self.payload@.drop_first());
            Ok(r)
        } else {
            let mut r: Vec<u8> = Vec::new();
            append_bytes(&mut r, self.payload.as_slice());
            assert(r@ =~= self.payload@);
            Ok(r)
        }
    }
}

/// The RTDE protocol versions.
#[derive(Debug, Clone, Copy, PartialEq, Eq, Structural)]
pub enum Protocol {
    V1,
    V2,
}

impl Protocol {
    /// The version number on the wire.
    pub open spec fn number(self) -> u16 {
        match self {
            Protocol::V1 => 1,
            Protocol::V2 => 2,
        }
    }

    /// The two wire bytes of this version.
    pub fn as_bytes(&self) -> (r: Vec<u8>)
        ensures
            r@ == u16_be(self.number()),
    {
        let n: u16 = match self {
            Protocol::V1 => 1,
            Protocol::V2 => 2,
        };
        let b = u16_to_be(n);
        let r = vec![b[0], b[1]];
        assert(r@ =~= u16_be(self.number()));
        r
    }
}

/// Severity of a log message.
#[derive(Debug, Clone, Copy, PartialEq, Eq, Structural)]
pub enum Level {
    Exception,
    Error,
    Warning,
    Info,
}

impl Level {
    /// The wire tag of this level.
    pub open spec fn spec_tag(self) -> u8 {
        match self {
            Level::Exception => 0,
            Level::Error => 1,
            Level::Warning => 2,
            Level::Info => 3,
        }
    }

    /// The wire tag of this level.
    pub fn tag(&self) -> (r: u8)
        ensures
            r == self.spec_tag(),
    {
        match self {
            Level::Exception => 0,
            Level::Error => 1,
            Level::Warning => 2,
            Level::Info => 3,
        }
    }
}

/// The UTF-8 bytes of a text, after its length as eight big-endian bytes.
pub open spec fn prefixed_text(s: Seq<char>) -> Seq<u8> {
    u64_be(encode_utf8(s).len() as u64) + encode_utf8(s)
}

/// The wire form of a log message: the message text and the source text,
/// each after its length, then the severity tag.
pub open spec fn message_wire(message: Seq<char>, source: Seq<char>, level: Level) -> Seq<u8> {
    prefixed_text(message) + prefixed_text(source) + seq![level.spec_tag()]
}

/// A log message for the controller.
#[derive(Debug, Clone)]
pub struct Message {
    pub message: String,
    pub source: String,
    pub level: Level,
}

impl Default for Message {
    fn default() -> (r: Self)
        ensures
            r.message@.len() == 0,
            r.source@.len() == 0,
            r.level == Level::Info,
    {
        Message { message: String::new(), source: String::new(), level: Level::Info }
    }
}

impl Message {
    /// The wire form of this message.
    pub open spec fn wire(self) -> Seq<u8> {
        message_wire(self.message@, self.source@, self.level)
    }

    pub fn new(message: &str, source: &str, level: Level) -> (r: Message)
        ensures
            r.message@ == message@,
            r.source@ == source@,
            r.level == level,
    {
        Message { message: message.to_owned(), source: source.to_owned(), level }
    }

    /// The wire bytes of this message.
    pub fn as_bytes(&self) -> (r: Result<Vec<u8>, Error>)
        ensures
            r is Ok,
            r->Ok_0@ == self.wire(),
    {
        let mut r: Vec<u8> = Vec::new();
        append_prefixed_text(&mut r, self.message.as_str());
        append_prefixed_text(&mut r, self.source.as_str());
        r.push(self.level.tag());
        Ok(r)
    }
}

/// Appends the length of `s` as eight big-endian bytes, then its UTF-8 bytes.
fn append_prefixed_text(out: &mut Vec<u8>, s: &str)
    ensures
        final(out)@ == old(out)@ + prefixed_text(s@),
{
    let b = s.as_bytes();
    let len = u64_to_be(b.len() as u64);
    append_bytes(out, &len);
    append_bytes(out, b);
}

/// The controller software version.
#[derive(Debug, Clone, Copy, PartialEq, Eq, Structural)]
pub struct Version {
    pub major: u32,
    pub minor: u32,
    pub bugfix: u32,
    pub build: u32,
}

impl Version {
    /// The version that sixteen bytes read from the wire hold.
    pub open spec fn decode(b: Seq<u8>) -> Option<Version> {
        if b.len() == 16 {
            Some(
                Version {
                    major: u32_from_be(b, 0),
                    minor: u32_from_be(b, 4),
                    bugfix: u32_from_be(b, 8),
                    build: u32_from_be(b, 12),
                },
            )
        } else {
            None
        }
    }

    /// Reads a version from exactly sixteen bytes.
    pub fn parse(b: &[u8]) -> (r: Result<Version, Error>)
        ensures
            Version::decode(b@) is Some ==> r == Ok::<Version, Error>(
                Version::decode(b@).unwrap(),
            ),
            Version::decode(b@) is None ==> r is Err && r->Err_0 is Deserialization,
    {
        if b.len() != 16 {
            return Err(Error::Deserialization("a version is sixteen bytes".to_owned()));
        }
        Ok(
            Version {
                major: read_u32(b, 0),
                minor: read_u32(b, 4),
                bugfix: read_u32(b, 8),
                build: read_u32(b, 12),
            },
        )
    }
}

/// The big-endian `u32` in the four bytes of `b` from `at` on.
fn read_u32(b: &[u8], at: usize) -> (r: u32)
    requires
        at + 4 <= b@.len(),
    ensures
        r == u32_from_be(b@, at as int),
{
    ((b[at] as u32) << 24u32) | ((b[at + 1] as u32) << 16u32) | ((b[at + 2] as u32) << 8u32) | (b[at
        + 3] as u32)
}

/// A recipe the controller accepted: its id and the types of its variables, in order.
#[derive(Debug, Clone)]
pub struct Recipe {
    pub id: u8,
    pub var_types: Vec<DataType>,
}

/// A copy of a list of types.
pub fn copy_types(v: &Vec<DataType>) -> (r: Vec<DataType>)
    ensures
        r@ == v@,
{
    let mut r: Vec<DataType> = Vec::new();
    let mut i: usize = 0;
    while i < v.len()
        invariant
            i <= v@.len(),
            r@ == v@.subrange(0, i as int),
        decreases v@.len() - i,
    {
        r.push(v[i]);
        assert(v@.subrange(0, i + 1) =~= v@.subrange(0, i as int).push(v@[i as int]));
        i = i + 1;
    }
    assert(v@.subrange(0, i as int) =~= v@);
    r
}

impl Recipe {
    pub fn new(id: u8, var_types: Vec<DataType>) -> (r: Self)
        ensures
            r.id == id,
            r.var_types@ == var_types@,
    {
        Self { id, var_types }
    }

    /// The types of the recipe's variables, in order.
    pub fn get_types(&self) -> (r: Vec<DataType>)
        ensures
            r@ == self.var_types@,
    {
        copy_types(&self.var_types)
    }

    /// The id the controller assigned to the recipe.
    pub fn id(&self) -> (r: u8)
        ensures
            r == self.id,
    {
        self.id
    }
}

} // verus!
