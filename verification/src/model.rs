//! The object-tree data model that the pretty-printer renders.
//!
//! A [`BerObject`] is one decoded element of a BER/ASN.1 tagged-value tree:
//! a [`Header`] (class, constructed flag, numeric tag) together with a
//! [`BerObjectContent`] holding the decoded value.  Structured contents
//! (sets, sequences, tagged and optional wrappers) nest further objects, so
//! a `BerObject` is a tree.

use vstd::prelude::*;

verus! {

/// The tag number reserved for `SEQUENCE`; a set-or-sequence node whose
/// header carries this tag renders with the `Sequence` label.
pub const TAG_SEQUENCE: u32 = 16;

/// The tag number reserved for `SET`.
pub const TAG_SET: u32 = 17;

/// The classification category of a tag.
#[derive(Clone, Copy, Debug, PartialEq, Eq, Structural)]
pub enum Class {
    Universal,
    Application,
    ContextSpecific,
    Private,
}

/// Per-node metadata: classification, constructed-vs-primitive flag, and
/// the numeric tag value.
#[derive(Clone, Copy, Debug, PartialEq, Eq, Structural)]
pub struct Header {
    pub class: Class,
    pub constructed: bool,
    pub tag: u32,
}

/// A bit string value: the count of unused trailing bits lives beside it in
/// [`BerObjectContent::BitString`]; this carries the raw bytes.
#[derive(Debug)]
pub struct BitStringObject {
    pub data: Vec<u8>,
}

/// The decoded value a node holds.
///
/// Object identifiers carry their DER-encoded arc bytes; the textual string
/// kinds carry decoded text; `UniversalString` carries raw UTF-32-BE bytes,
/// four per code point.
#[derive(Debug)]
pub enum BerObjectContent {
    EndOfContent,
    Boolean(bool),
    Integer(Vec<u8>),
    Enum(u64),
    OID(Vec<u8>),
    RelativeOID(Vec<u8>),
    Null,
    OctetString(Vec<u8>),
    BitString(u8, BitStringObject),
    GeneralizedTime(String),
    UTCTime(String),
    VisibleString(String),
    GeneralString(String),
    GraphicString(String),
    PrintableString(String),
    NumericString(String),
    UTF8String(String),
    IA5String(String),
    T61String(String),
    VideotexString(String),
    ObjectDescriptor(String),
    BmpString(String),
    UniversalString(Vec<u8>),
    Optional(Option<Box<BerObject>>),
    Tagged(Class, u32, Box<BerObject>),
    SetOf(Vec<BerObject>),
    Sequence(Vec<BerObject>),
    Unknown(Class, u32, Vec<u8>),
}

/// One decoded element of a tagged-value tree.
#[derive(Debug)]
pub struct BerObject {
    pub header: Header,
    pub content: BerObjectContent,
}

/// The universal tag number that belongs to each content kind; wrappers and
/// the unknown kind carry their own tag.
pub open spec fn spec_content_tag(c: BerObjectContent) -> u32 {
    match c {
        BerObjectContent::EndOfContent => 0,
        BerObjectContent::Boolean(_) => 1,
        BerObjectContent::Integer(_) => 2,
        BerObjectContent::BitString(_, _) => 3,
        BerObjectContent::OctetString(_) => 4,
        BerObjectContent::Null => 5,
        BerObjectContent::OID(_) => 6,
        BerObjectContent::ObjectDescriptor(_) => 7,
        BerObjectContent::Enum(_) => 10,
        BerObjectContent::UTF8String(_) => 12,
        BerObjectContent::RelativeOID(_) => 13,
        BerObjectContent::Sequence(_) => 16,
        BerObjectContent::SetOf(_) => 17,
        BerObjectContent::NumericString(_) => 18,
        BerObjectContent::PrintableString(_) => 19,
        BerObjectContent::T61String(_) => 20,
        BerObjectContent::VideotexString(_) => 21,
        BerObjectContent::IA5String(_) => 22,
        BerObjectContent::UTCTime(_) => 23,
        BerObjectContent::GeneralizedTime(_) => 24,
        BerObjectContent::GraphicString(_) => 25,
        BerObjectContent::VisibleString(_) => 26,
        BerObjectContent::GeneralString(_) => 27,
        BerObjectContent::UniversalString(_) => 28,
        BerObjectContent::BmpString(_) => 30,
        BerObjectContent::Optional(_) => 0,
        BerObjectContent::Tagged(_, tag, _) => tag,
        BerObjectContent::Unknown(_, tag, _) => tag,
    }
}

/// The classification that belongs to each content kind: wrappers and the
/// unknown kind carry their own class, everything else is universal.
pub open spec fn spec_content_class(c: BerObjectContent) -> Class {
    match c {
        BerObjectContent::Tagged(class, _, _) => class,
        BerObjectContent::Unknown(class, _, _) => class,
        _ => Class::Universal,
    }
}

/// Whether a content kind is constructed (holds nested objects) rather
/// than primitive.
pub open spec fn spec_content_constructed(c: BerObjectContent) -> bool {
    match c {
        BerObjectContent::Sequence(_) => true,
        BerObjectContent::SetOf(_) => true,
        BerObjectContent::Tagged(_, _, _) => true,
        _ => false,
    }
}

impl BerObject {
    /// Builds an object whose header is derived from the content: the
    /// content kind's own tag and class, and the constructed flag of the
    /// structured kinds.
    pub fn from_obj(c: BerObjectContent) -> (r: BerObject)
        ensures
            r.content == c,
            r.header.tag == spec_content_tag(c),
            r.header.class == spec_content_class(c),
            r.header.constructed == spec_content_constructed(c),
    {
        let tag: u32 = match &c {
            BerObjectContent::EndOfContent => 0,
            BerObjectContent::Boolean(_) => 1,
            BerObjectContent::Integer(_) => 2,
            BerObjectContent::BitString(_, _) => 3,
            BerObjectContent::OctetString(_) => 4,
            BerObjectContent::Null => 5,
            BerObjectContent::OID(_) => 6,
            BerObjectContent::ObjectDescriptor(_) => 7,
            BerObjectContent::Enum(_) => 10,
            BerObjectContent::UTF8String(_) => 12,
            BerObjectContent::RelativeOID(_) => 13,
            BerObjectContent::Sequence(_) => 16,
            BerObjectContent::SetOf(_) => 17,
            BerObjectContent::NumericString(_) => 18,
            BerObjectContent::PrintableString(_) => 19,
            BerObjectContent::T61String(_) => 20,
            BerObjectContent::VideotexString(_) => 21,
            BerObjectContent::IA5String(_) => 22,
            BerObjectContent::UTCTime(_) => 23,
            BerObjectContent::GeneralizedTime(_) => 24,
            BerObjectContent::GraphicString(_) => 25,
            BerObjectContent::VisibleString(_) => 26,
            BerObjectContent::GeneralString(_) => 27,
            BerObjectContent::UniversalString(_) => 28,
            BerObjectContent::BmpString(_) => 30,
            BerObjectContent::Optional(_) => 0,
            BerObjectContent::Tagged(_, tag, _) => *tag,
            BerObjectContent::Unknown(_, tag, _) => *tag,
        };
        let class: Class = match &c {
            BerObjectContent::Tagged(class, _, _) => *class,
            BerObjectContent::Unknown(class, _, _) => *class,
            _ => Class::Universal,
        };
        let constructed: bool = match &c {
            BerObjectContent::Sequence(_) => true,
            BerObjectContent::SetOf(_) => true,
            BerObjectContent::Tagged(_, _, _) => true,
            _ => false,
        };
        BerObject { header: Header { class, constructed, tag }, content: c }
    }

    /// Builds an integer leaf from its raw big-endian bytes.
    pub fn from_int_slice(s: &[u8]) -> (r: BerObject)
        ensures
            r.content matches BerObjectContent::Integer(b) && b@ == s@,
            r.header == (Header { class: Class::Universal, constructed: false, tag: 2u32 }),
    {
        let mut bytes: Vec<u8> = Vec::new();
        let mut i: usize = 0;
        while i < s.len()
            invariant
                0 <= i <= s@.len(),
                bytes@ == s@.subrange(0, i as int),
            decreases s@.len() - i,
        {
            bytes.push(s[i]);
            proof {
                assert(bytes@ =~= s@.subrange(0, i + 1));
            }
            i = i + 1;
        }
        proof {
            assert(bytes@ =~= s@);
        }
        BerObject::from_obj(BerObjectContent::Integer(bytes))
    }
}

} // verus!
